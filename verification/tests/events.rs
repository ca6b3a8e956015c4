use tilegame::events::{factory_color, handle_window_event, handle_window_event_with_roll, Key, WindowAction, WindowEvent};
use tilegame::game::tiles::{Board, Color, Orientation, TileStencils, TileTextures, TileType};
use tilegame::texture::Texture;

fn board(rows: u32, cols: u32) -> Board {
    let t = |id| Texture { id, width: 1, height: 1 };
    Board::new(
        rows,
        cols,
        TileTextures { red_factory: t(1), blue_factory: t(2), green_factory: t(3), pipe_texture: t(4), empty_texture: t(5) },
        TileStencils { pipe_stencil: t(6) },
    )
}

fn kinds(b: &Board) -> Vec<Vec<TileType>> {
    b.tiles.iter().map(|row| row.iter().map(|t| t.kind).collect()).collect()
}

#[test]
fn factory_color_by_roll() {
    assert_eq!(factory_color(0), Some(Color::Red));
    assert_eq!(factory_color(1), Some(Color::Blue));
    assert_eq!(factory_color(2), Some(Color::Green));
    assert_eq!(factory_color(3), None);
    assert_eq!(factory_color(u32::MAX), None);
}

#[test]
fn arrow_keys_move_cursor() {
    let mut b = board(3, 3);
    let (mut row, mut col) = (1usize, 1usize);
    let before = kinds(&b);
    let a = handle_window_event_with_roll(&mut b, &mut row, &mut col, WindowEvent::KeyPress(Key::Right), 0);
    assert_eq!((a, row, col), (WindowAction::Nothing, 1, 2));
    handle_window_event_with_roll(&mut b, &mut row, &mut col, WindowEvent::KeyPress(Key::Left), 0);
    assert_eq!((row, col), (1, 1));
    handle_window_event_with_roll(&mut b, &mut row, &mut col, WindowEvent::KeyPress(Key::Up), 0);
    assert_eq!((row, col), (0, 1));
    handle_window_event_with_roll(&mut b, &mut row, &mut col, WindowEvent::KeyPress(Key::Down), 0);
    handle_window_event_with_roll(&mut b, &mut row, &mut col, WindowEvent::KeyPress(Key::Down), 0);
    assert_eq!((row, col), (2, 1));
    assert_eq!(kinds(&b), before);
}

#[test]
fn cursor_may_leave_the_board() {
    let mut b = board(2, 2);
    let (mut row, mut col) = (1usize, 1usize);
    handle_window_event_with_roll(&mut b, &mut row, &mut col, WindowEvent::KeyPress(Key::Right), 0);
    handle_window_event_with_roll(&mut b, &mut row, &mut col, WindowEvent::KeyPress(Key::Right), 0);
    assert_eq!((row, col), (1, 3));
}

#[test]
fn space_places_factory_by_roll() {
    for (roll, color) in [(0, Color::Red), (1, Color::Blue), (2, Color::Green)] {
        let mut b = board(2, 3);
        let (mut row, mut col) = (1usize, 2usize);
        let a = handle_window_event_with_roll(&mut b, &mut row, &mut col, WindowEvent::KeyPress(Key::Space), roll);
        assert_eq!(a, WindowAction::Nothing);
        assert_eq!((row, col), (1, 2));
        assert_eq!(b.tiles[1][2].kind, TileType::Factory(color));
        assert_eq!(b.tiles[0][0].kind, TileType::Empty);
    }
    let mut b = board(2, 3);
    let (mut row, mut col) = (1usize, 2usize);
    handle_window_event_with_roll(&mut b, &mut row, &mut col, WindowEvent::KeyPress(Key::Space), 3);
    assert_eq!(b.tiles[1][2].kind, TileType::Empty);
}

#[test]
fn f_places_horizontal_pipe() {
    let mut b = board(2, 2);
    let (mut row, mut col) = (0usize, 1usize);
    handle_window_event_with_roll(&mut b, &mut row, &mut col, WindowEvent::KeyPress(Key::F), 0);
    assert_eq!(b.tiles[0][1].kind, TileType::Pipe(Orientation::Horizontal));
    assert_eq!(b.tiles[0][1].stencil, Some(Texture { id: 6, width: 1, height: 1 }));
}

#[test]
fn escape_resize_and_other_events() {
    let mut b = board(1, 1);
    let (mut row, mut col) = (0usize, 0usize);
    let before = kinds(&b);
    assert_eq!(
        handle_window_event_with_roll(&mut b, &mut row, &mut col, WindowEvent::KeyPress(Key::Escape), 0),
        WindowAction::Close
    );
    assert_eq!(
        handle_window_event_with_roll(&mut b, &mut row, &mut col, WindowEvent::FramebufferSize(640, 480), 0),
        WindowAction::SetViewport(640, 480)
    );
    assert_eq!(
        handle_window_event_with_roll(&mut b, &mut row, &mut col, WindowEvent::KeyPress(Key::Other), 0),
        WindowAction::Nothing
    );
    assert_eq!(handle_window_event(&mut b, &mut row, &mut col, WindowEvent::Other), WindowAction::Nothing);
    assert_eq!((row, col), (0, 0));
    assert_eq!(kinds(&b), before);
}

#[test]
fn random_space_always_places_a_factory() {
    for _ in 0..50 {
        let mut b = board(1, 2);
        let (mut row, mut col) = (0usize, 1usize);
        let a = handle_window_event(&mut b, &mut row, &mut col, WindowEvent::KeyPress(Key::Space));
        assert_eq!(a, WindowAction::Nothing);
        assert!(matches!(b.tiles[0][1].kind, TileType::Factory(_)));
        assert_eq!(b.tiles[0][0].kind, TileType::Empty);
    }
}

#[test]
fn events_on_a_hand_made_board() {
    let t = |id| Texture { id, width: 1, height: 1 };
    let template = board(1, 1);
    let mut b = Board {
        tiles: vec![vec![template.tiles[0][0]], vec![template.tiles[0][0], template.tiles[0][0]]],
        textures: template.textures,
        stencils: template.stencils,
        rows: 0,
        cols: 0,
    };
    let (mut row, mut col) = (1usize, 0usize);
    let a = handle_window_event_with_roll(&mut b, &mut row, &mut col, WindowEvent::KeyPress(Key::Right), 0);
    assert_eq!((a, row, col), (WindowAction::Nothing, 1, 1));
    handle_window_event_with_roll(&mut b, &mut row, &mut col, WindowEvent::KeyPress(Key::Space), 1);
    assert_eq!(b.tiles[1][1].kind, TileType::Factory(Color::Blue));
    assert_eq!(b.tiles[1][1].texture, t(2));
    assert_eq!((b.tiles[1][1].row, b.tiles[1][1].col), (1, 1));
    assert_eq!(b.tiles[1][0].kind, TileType::Empty);
    assert_eq!(b.tiles[0].len(), 1);
}
