use tilegame::game::tiles::{Board, Color, Orientation, QuadCorner, Tile, TileStencils, TileTextures, TileType};
use tilegame::texture::Texture;
use tilegame::utilities::coords_to_index;

fn tex(id: u32) -> Texture {
    Texture { id, width: 16, height: 16 }
}

fn textures() -> TileTextures {
    TileTextures {
        red_factory: tex(1),
        blue_factory: tex(2),
        green_factory: tex(3),
        pipe_texture: tex(4),
        empty_texture: tex(5),
    }
}

fn stencils() -> TileStencils {
    TileStencils { pipe_stencil: tex(6) }
}

#[test]
fn coords_to_index_is_row_major() {
    assert_eq!(coords_to_index(3, 2, 10), 23);
    assert_eq!(coords_to_index(0, 0, 5), 0);
    assert_eq!(coords_to_index(4, 0, 5), 4);
    assert_eq!(coords_to_index(0, 1, 5), 5);
}

#[test]
fn new_board_is_empty_with_positions() {
    let board = Board::new(3, 4, textures(), stencils());
    assert_eq!(board.rows, 3);
    assert_eq!(board.cols, 4);
    assert_eq!(board.tiles.len(), 3);
    for r in 0..3 {
        assert_eq!(board.tiles[r].len(), 4);
        for c in 0..4 {
            let t = board.tiles[r][c];
            assert_eq!(t.kind, TileType::Empty);
            assert_eq!(t.row, r as i32);
            assert_eq!(t.col, c as i32);
            assert_eq!(t.texture, tex(5));
            assert_eq!(t.stencil, None);
        }
    }
}

#[test]
fn empty_board_has_no_tiles() {
    let board = Board::new(0, 7, textures(), stencils());
    assert_eq!(board.tiles.len(), 0);
    let board = Board::new(2, 0, textures(), stencils());
    assert_eq!(board.tiles.len(), 2);
    assert!(board.tiles[0].is_empty());
}

#[test]
fn set_tile_replaces_one_tile() {
    let mut board = Board::new(2, 3, textures(), stencils());
    board.set_tile(1, 2, TileType::Pipe(Orientation::Horizontal));
    let t = board.tiles[1][2];
    assert_eq!(t.kind, TileType::Pipe(Orientation::Horizontal));
    assert_eq!((t.row, t.col), (1, 2));
    assert_eq!(t.texture, tex(4));
    assert_eq!(t.stencil, Some(tex(6)));
    for r in 0..2 {
        for c in 0..3 {
            if (r, c) != (1, 2) {
                assert_eq!(board.tiles[r][c].kind, TileType::Empty);
            }
        }
    }
}

#[test]
fn set_tile_picks_texture_by_kind() {
    let mut board = Board::new(1, 4, textures(), stencils());
    board.set_tile(0, 0, TileType::Factory(Color::Red));
    board.set_tile(0, 1, TileType::Factory(Color::Blue));
    board.set_tile(0, 2, TileType::Factory(Color::Green));
    board.set_tile(0, 3, TileType::Pipe(Orientation::Vertical));
    assert_eq!(board.tiles[0][0].texture, tex(1));
    assert_eq!(board.tiles[0][1].texture, tex(2));
    assert_eq!(board.tiles[0][2].texture, tex(3));
    assert_eq!(board.tiles[0][3].texture, tex(4));
    assert_eq!(board.tiles[0][0].stencil, None);
    assert_eq!(board.tiles[0][3].stencil, Some(tex(6)));
    board.set_tile(0, 3, TileType::Empty);
    assert_eq!(board.tiles[0][3].kind, TileType::Empty);
    assert_eq!(board.tiles[0][3].texture, tex(5));
    assert_eq!(board.tiles[0][3].stencil, None);
}

#[test]
fn last_placement_wins() {
    let mut board = Board::new(2, 2, textures(), stencils());
    board.set_tile(1, 0, TileType::Factory(Color::Green));
    board.set_tile(1, 0, TileType::Pipe(Orientation::Vertical));
    assert_eq!(board.tiles[1][0].kind, TileType::Pipe(Orientation::Vertical));
}

#[test]
fn placements_on_different_cells_commute() {
    let mut a = Board::new(2, 2, textures(), stencils());
    a.set_tile(0, 1, TileType::Factory(Color::Red));
    a.set_tile(1, 0, TileType::Pipe(Orientation::Horizontal));
    let mut b = Board::new(2, 2, textures(), stencils());
    b.set_tile(1, 0, TileType::Pipe(Orientation::Horizontal));
    b.set_tile(0, 1, TileType::Factory(Color::Red));
    assert_eq!(a.tiles, b.tiles);
}

#[test]
fn tile_constructors() {
    let board = Board::new(1, 1, textures(), stencils());
    let f = Tile::new_factory(&board, 5, 6, Color::Blue);
    assert_eq!(f, Tile { kind: TileType::Factory(Color::Blue), row: 5, col: 6, texture: tex(2), stencil: None });
    let p = Tile::new_pipe(&board, 0, 1, Orientation::Vertical);
    assert_eq!(p, Tile { kind: TileType::Pipe(Orientation::Vertical), row: 0, col: 1, texture: tex(4), stencil: Some(tex(6)) });
    let e = Tile::new_empty(&board, 2, 3);
    assert_eq!(e, Tile { kind: TileType::Empty, row: 2, col: 3, texture: tex(5), stencil: None });
    let n = Tile::new(7, 8, TileType::Empty, tex(9), Some(tex(10)));
    assert_eq!(n.texture, tex(9));
    assert_eq!(n.stencil, Some(tex(10)));
}

#[test]
fn quad_corners_of_a_tile() {
    let board = Board::new(1, 1, textures(), stencils());
    let t = Tile::new_empty(&board, 3, 7);
    assert_eq!(
        t.quad_corners(),
        [
            QuadCorner { x: 7, y: 3, u: 0, v: 1 },
            QuadCorner { x: 7, y: 2, u: 0, v: 0 },
            QuadCorner { x: 8, y: 3, u: 1, v: 1 },
            QuadCorner { x: 8, y: 2, u: 1, v: 0 },
        ]
    );
}

#[test]
fn set_tile_on_a_hand_made_board() {
    // rows and cols disagree with the tiles, and the rows are ragged
    let board0 = Board::new(1, 1, textures(), stencils());
    let mut board = Board {
        tiles: vec![
            vec![Tile::new_empty(&board0, 0, 0)],
            vec![Tile::new_empty(&board0, 9, 9), Tile::new_empty(&board0, 1, 1), Tile::new(4, 4, TileType::Empty, tex(42), None)],
        ],
        textures: textures(),
        stencils: stencils(),
        rows: 7,
        cols: 7,
    };
    board.set_tile(1, 1, TileType::Factory(Color::Green));
    assert_eq!(
        board.tiles[1][1],
        Tile { kind: TileType::Factory(Color::Green), row: 1, col: 1, texture: tex(3), stencil: None }
    );
    assert_eq!(board.tiles[1][0].row, 9);
    assert_eq!(board.tiles[1][2].texture, tex(42));
    assert_eq!(board.tiles[0].len(), 1);
    assert_eq!((board.rows, board.cols), (7, 7));
}

#[test]
fn quad_indices_draw_one_strip() {
    assert_eq!(Tile::quad_indices(), [0, 1, 2, 3]);
}
