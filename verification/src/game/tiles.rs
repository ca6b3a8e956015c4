use vstd::prelude::*;
use crate::texture::Texture;

verus! {

/// What stands on a tile of the board.
#[derive(Clone, Copy, PartialEq, Eq, Structural, Debug)]
pub enum TileType {
    Factory(Color),
    Empty,
    Pipe(Orientation),
}

/// The direction in which a pipe runs.
#[derive(Clone, Copy, PartialEq, Eq, Structural, Debug)]
pub enum Orientation {
    Vertical,
    Horizontal,
}

/// The colour of a factory.
#[derive(Clone, Copy, PartialEq, Eq, Structural, Debug)]
pub enum Color {
    Red,
    Green,
    Blue,
}

/// One cell of the board: what stands on it, where it is, the texture it is
/// drawn with and, for pipes, the stencil that masks the background.
#[derive(Clone, Copy, PartialEq, Eq, Structural, Debug)]
pub struct Tile {
    pub kind: TileType,
    pub row: i32,
    pub col: i32,
    pub texture: Texture,
    pub stencil: Option<Texture>,
}

/// A corner of the unit square that a tile covers: its position on the board
/// (`x` along columns, `y` along rows, both in tile units) and its texture
/// coordinate `(u, v)`.
#[derive(Clone, Copy, PartialEq, Eq, Structural, Debug)]
pub struct QuadCorner {
    pub x: i64,
    pub y: i64,
    pub u: u8,
    pub v: u8,
}

/// The textures that tiles are drawn with, one per kind of tile.
#[derive(Clone, Copy, PartialEq, Eq, Structural, Debug)]
pub struct TileTextures {
    pub red_factory: Texture,
    pub blue_factory: Texture,
    pub green_factory: Texture,
    pub pipe_texture: Texture,
    pub empty_texture: Texture,
}

/// The stencils that tiles are masked with.
#[derive(Clone, Copy, PartialEq, Eq, Structural, Debug)]
pub struct TileStencils {
    pub pipe_stencil: Texture,
}

/// A grid of `rows` by `cols` tiles, `tiles[r][c]` being the tile in row `r`
/// and column `c`.
pub struct Board {
    pub tiles: Vec<Vec<Tile>>,
    pub textures: TileTextures,
    pub stencils: TileStencils,
    pub rows: u32,
    pub cols: u32,
}

/// The texture that a tile of kind `kind` is drawn with.
pub open spec fn texture_for(kind: TileType, textures: TileTextures) -> Texture {
    match kind {
        TileType::Factory(Color::Red) => textures.red_factory,
        TileType::Factory(Color::Blue) => textures.blue_factory,
        TileType::Factory(Color::Green) => textures.green_factory,
        TileType::Empty => textures.empty_texture,
        TileType::Pipe(_) => textures.pipe_texture,
    }
}

/// The stencil that a tile of kind `kind` is masked with: pipes have one.
pub open spec fn stencil_for(kind: TileType, stencils: TileStencils) -> Option<Texture> {
    match kind {
        TileType::Pipe(_) => Some(stencils.pipe_stencil),
        _ => None,
    }
}

/// The tile of kind `kind` at `(row, col)` as the board's constructors make it.
pub open spec fn spec_tile(
    kind: TileType,
    row: i32,
    col: i32,
    textures: TileTextures,
    stencils: TileStencils,
) -> Tile {
    Tile {
        kind,
        row,
        col,
        texture: texture_for(kind, textures),
        stencil: stencil_for(kind, stencils),
    }
}

/// The grid `grid` with the cell `(r, c)` holding `kind`.
pub open spec fn grid_set<A>(grid: Seq<Seq<A>>, r: int, c: int, kind: A) -> Seq<Seq<A>> {
    grid.update(r, grid[r].update(c, kind))
}

impl Tile {
    /// Makes the tile of kind `kind` at `(row, col)`, drawn with `texture` and
    /// masked with `stencil`.
    pub fn new(row: i32, col: i32, kind: TileType, texture: Texture, stencil: Option<Texture>) -> (tile: Tile)
        ensures
            tile == (Tile { kind, row, col, texture, stencil }),
    {
        Tile { kind, row, col, texture, stencil }
    }

    /// The corners of the square this tile is drawn on, in the order of a
    /// triangle strip: top left, bottom left, top right, bottom right, where
    /// the top left corner is `(col, row)` and the square is one unit wide
    /// and one unit high.
    pub fn quad_corners(&self) -> (corners: [QuadCorner; 4])
        ensures
            corners@ == seq![
                QuadCorner { x: self.col as i64, y: self.row as i64, u: 0, v: 1 },
                QuadCorner { x: self.col as i64, y: (self.row - 1) as i64, u: 0, v: 0 },
                QuadCorner { x: (self.col + 1) as i64, y: self.row as i64, u: 1, v: 1 },
                QuadCorner { x: (self.col + 1) as i64, y: (self.row - 1) as i64, u: 1, v: 0 },
            ],
    {
        let x = self.col as i64;
        let y = self.row as i64;
        let corners = [
            QuadCorner { x, y, u: 0, v: 1 },
            QuadCorner { x, y: y - 1, u: 0, v: 0 },
            QuadCorner { x: x + 1, y, u: 1, v: 1 },
            QuadCorner { x: x + 1, y: y - 1, u: 1, v: 0 },
        ];
        assert(corners@ =~= seq![
            QuadCorner { x: self.col as i64, y: self.row as i64, u: 0, v: 1 },
            QuadCorner { x: self.col as i64, y: (self.row - 1) as i64, u: 0, v: 0 },
            QuadCorner { x: (self.col + 1) as i64, y: self.row as i64, u: 1, v: 1 },
            QuadCorner { x: (self.col + 1) as i64, y: (self.row - 1) as i64, u: 1, v: 0 },
        ]);
        corners
    }

    /// The order in which the corners given by `quad_corners` are drawn: one
    /// triangle strip through all four.
    pub fn quad_indices() -> (indices: [u32; 4])
        ensures
            indices@ == seq![0u32, 1, 2, 3],
    {
        let indices: [u32; 4] = [0, 1, 2, 3];
        assert(indices@ =~= seq![0u32, 1, 2, 3]);
        indices
    }

    /// An empty tile at `(row, col)`, drawn with the board's empty texture.
    pub fn new_empty(board: &Board, row: i32, col: i32) -> (tile: Tile)
        ensures
            tile == spec_tile(TileType::Empty, row, col, board.textures, board.stencils),
            tile == (Tile { kind: TileType::Empty, row, col, texture: board.textures.empty_texture, stencil: None }),
    {
        Tile::new(row, col, TileType::Empty, board.textures.empty_texture, None)
    }

    /// A factory of colour `color` at `(row, col)`, drawn with the board's
    /// texture for factories of that colour.
    pub fn new_factory(board: &Board, row: i32, col: i32, color: Color) -> (tile: Tile)
        ensures
            tile == spec_tile(TileType::Factory(color), row, col, board.textures, board.stencils),
            tile.kind == TileType::Factory(color),
            tile.row == row,
            tile.col == col,
            tile.stencil == None::<Texture>,
            color == Color::Red ==> tile.texture == board.textures.red_factory,
            color == Color::Blue ==> tile.texture == board.textures.blue_factory,
            color == Color::Green ==> tile.texture == board.textures.green_factory,
    {
        let texture = match color {
            Color::Red => board.textures.red_factory,
            Color::Blue => board.textures.blue_factory,
            Color::Green => board.textures.green_factory,
        };
        Tile::new(row, col, TileType::Factory(color), texture, None)
    }

    /// A pipe running in direction `orientation` at `(row, col)`, drawn with
    /// the board's pipe texture and masked with its pipe stencil.
    pub fn new_pipe(board: &Board, row: i32, col: i32, orientation: Orientation) -> (tile: Tile)
        ensures
            tile == spec_tile(TileType::Pipe(orientation), row, col, board.textures, board.stencils),
            tile == (Tile {
                kind: TileType::Pipe(orientation),
                row,
                col,
                texture: board.textures.pipe_texture,
                stencil: Some(board.stencils.pipe_stencil),
            }),
    {
        Tile::new(
            row,
            col,
            TileType::Pipe(orientation),
            board.textures.pipe_texture,
            Some(board.stencils.pipe_stencil),
        )
    }
}

impl Board {
    /// The kinds of the tiles, row by row.
    pub open spec fn kinds(&self) -> Seq<Seq<TileType>> {
        self.tiles@.map_values(|row: Vec<Tile>| row@.map_values(|t: Tile| t.kind))
    }

    /// The tiles, row by row.
    pub open spec fn grid(&self) -> Seq<Seq<Tile>> {
        self.tiles@.map_values(|row: Vec<Tile>| row@)
    }

    /// The board has `rows` rows of `cols` tiles each, and each tile knows its
    /// own position and is drawn as its kind asks.
    pub open spec fn wf(&self) -> bool {
        &&& self.tiles@.len() == self.rows
        &&& forall|r: int| 0 <= r < self.rows ==> (#[trigger] self.tiles@[r])@.len() == self.cols
        &&& forall|r: int, c: int|
            0 <= r < self.rows && 0 <= c < self.cols ==> #[trigger] self.tiles@[r]@[c]
                == spec_tile(self.tiles@[r]@[c].kind, r as i32, c as i32, self.textures, self.stencils)
    }

    /// A board of `rows` by `cols` empty tiles.
    pub fn new(rows: u32, cols: u32, textures: TileTextures, stencils: TileStencils) -> (board: Board)
        ensures
            board.wf(),
            board.rows == rows,
            board.cols == cols,
            board.textures == textures,
            board.stencils == stencils,
            forall|r: int, c: int|
                0 <= r < rows && 0 <= c < cols ==> #[trigger] board.kinds()[r][c] == TileType::Empty,
            forall|r: int, c: int|
                0 <= r < rows && 0 <= c < cols ==> #[trigger] board.grid()[r][c] == (Tile {
                    kind: TileType::Empty,
                    row: r as i32,
                    col: c as i32,
                    texture: textures.empty_texture,
                    stencil: None,
                }),
    {
        let tiles: Vec<Vec<Tile>> = Vec::new();
        let mut board = Board { tiles, textures, stencils, rows, cols };

        let mut tiles_copy: Vec<Vec<Tile>> = Vec::with_capacity(rows as usize);
        for r in 0..rows
            invariant
                board.rows == rows,
                board.cols == cols,
                board.textures == textures,
                board.stencils == stencils,
                tiles_copy@.len() == r,
                forall|i: int| 0 <= i < r ==> (#[trigger] tiles_copy@[i])@.len() == cols,
                forall|i: int, j: int|
                    0 <= i < r && 0 <= j < cols ==> #[trigger] tiles_copy@[i]@[j]
                        == spec_tile(TileType::Empty, i as i32, j as i32, textures, stencils),
        {
            let mut row: Vec<Tile> = Vec::with_capacity(cols as usize);
            for c in 0..cols
                invariant
                    board.textures == textures,
                    board.stencils == stencils,
                    row@.len() == c,
                    forall|j: int|
                        0 <= j < c ==> #[trigger] row@[j]
                            == spec_tile(TileType::Empty, r as i32, j as i32, textures, stencils),
            {
                row.push(Tile::new_empty(&board, r as i32, c as i32));
            }
            tiles_copy.push(row);
        }
        board.tiles = tiles_copy;
        assert forall|r: int, c: int|
            0 <= r < rows && 0 <= c < cols implies #[trigger] board.kinds()[r][c] == TileType::Empty by {
            assert(board.tiles@[r]@[c].kind == TileType::Empty);
        }
        board
    }

    /// Replaces the tile at `(row, col)` with a new tile of kind `kind`.
    pub fn set_tile(&mut self, row: i32, col: i32, kind: TileType)
        requires
            0 <= row < old(self).tiles@.len(),
            0 <= col < old(self).tiles@[row as int]@.len(),
        ensures
            final(self).rows == old(self).rows,
            final(self).cols == old(self).cols,
            final(self).textures == old(self).textures,
            final(self).stencils == old(self).stencils,
            final(self).grid() == grid_set(
                old(self).grid(),
                row as int,
                col as int,
                spec_tile(kind, row, col, old(self).textures, old(self).stencils),
            ),
            final(self).kinds() == grid_set(old(self).kinds(), row as int, col as int, kind),
            old(self).wf() ==> final(self).wf(),
            final(self).grid()[row as int][col as int].kind == kind,
            final(self).grid()[row as int][col as int].row == row,
            final(self).grid()[row as int][col as int].col == col,
            kind == TileType::Factory(Color::Red) ==> final(self).grid()[row as int][col as int].texture
                == old(self).textures.red_factory,
            kind == TileType::Factory(Color::Blue) ==> final(self).grid()[row as int][col as int].texture
                == old(self).textures.blue_factory,
            kind == TileType::Factory(Color::Green) ==> final(self).grid()[row as int][col as int].texture
                == old(self).textures.green_factory,
            kind == TileType::Empty ==> final(self).grid()[row as int][col as int].texture
                == old(self).textures.empty_texture,
            kind is Pipe ==> final(self).grid()[row as int][col as int].texture
                == old(self).textures.pipe_texture,
            kind is Pipe ==> final(self).grid()[row as int][col as int].stencil
                == Some(old(self).stencils.pipe_stencil),
            !(kind is Pipe) ==> final(self).grid()[row as int][col as int].stencil == None::<Texture>,
    {
        let tile = match kind {
            TileType::Factory(color) => Tile::new_factory(self, row, col, color),
            TileType::Pipe(orientation) => Tile::new_pipe(self, row, col, orientation),
            TileType::Empty => Tile::new_empty(self, row, col),
        };
        let ghost before = *self;
        self.tiles[row as usize][col as usize] = tile;
        proof {
            assert(self.grid() =~~= grid_set(before.grid(), row as int, col as int, tile));
            assert(self.kinds() =~~= grid_set(before.kinds(), row as int, col as int, kind));
            if before.wf() {
                assert forall|r: int| 0 <= r < self.rows implies (#[trigger] self.tiles@[r])@.len() == self.cols by {
                    if r != row as int {
                        assert(self.tiles@[r] == before.tiles@[r]);
                    }
                }
                assert forall|r: int, c: int|
                    0 <= r < self.rows && 0 <= c < self.cols implies #[trigger] self.tiles@[r]@[c]
                        == spec_tile(self.tiles@[r]@[c].kind, r as i32, c as i32, self.textures, self.stencils) by {
                    if r != row as int {
                        assert(self.tiles@[r] == before.tiles@[r]);
                    } else if c != col as int {
                        assert(self.tiles@[r]@[c] == before.tiles@[r]@[c]);
                    }
                }
            }
        }
    }
}

/// Placing two tiles on the same cell one after the other leaves the second.
pub proof fn lemma_set_tile_last_wins(
    grid: Seq<Seq<TileType>>,
    r: int,
    c: int,
    first: TileType,
    second: TileType,
)
    requires
        0 <= r < grid.len(),
        0 <= c < grid[r].len(),
    ensures
        grid_set(grid_set(grid, r, c, first), r, c, second) == grid_set(grid, r, c, second),
{
    assert(grid_set(grid_set(grid, r, c, first), r, c, second) =~~= grid_set(grid, r, c, second));
}

/// Placing tiles on two different cells gives the same board in either order.
pub proof fn lemma_set_tile_commutes(
    grid: Seq<Seq<TileType>>,
    r1: int,
    c1: int,
    k1: TileType,
    r2: int,
    c2: int,
    k2: TileType,
)
    requires
        0 <= r1 < grid.len(),
        0 <= c1 < grid[r1].len(),
        0 <= r2 < grid.len(),
        0 <= c2 < grid[r2].len(),
        r1 != r2 || c1 != c2,
    ensures
        grid_set(grid_set(grid, r1, c1, k1), r2, c2, k2)
            == grid_set(grid_set(grid, r2, c2, k2), r1, c1, k1),
{
    assert(grid_set(grid_set(grid, r1, c1, k1), r2, c2, k2)
        =~~= grid_set(grid_set(grid, r2, c2, k2), r1, c1, k1));
}

/// Placing on a cell the kind that already stands there changes nothing, and
/// placing a tile never changes the size of the grid.
pub proof fn lemma_set_tile_same_kind(grid: Seq<Seq<TileType>>, r: int, c: int, kind: TileType)
    requires
        0 <= r < grid.len(),
        0 <= c < grid[r].len(),
    ensures
        grid_set(grid, r, c, kind).len() == grid.len(),
        forall|i: int| 0 <= i < grid.len() ==> #[trigger] grid_set(grid, r, c, kind)[i].len() == grid[i].len(),
        grid[r][c] == kind ==> grid_set(grid, r, c, kind) == grid,
{
    if grid[r][c] == kind {
        assert(grid_set(grid, r, c, kind) =~~= grid);
    }
}

/// A tile is drawn with exactly the board's texture for its kind (the red,
/// blue or green factory texture, the pipe texture, the empty texture), and
/// only pipes have a stencil, the board's pipe stencil.
pub proof fn lemma_tile_drawn_with_board_textures(
    row: i32,
    col: i32,
    textures: TileTextures,
    stencils: TileStencils,
    orientation: Orientation,
)
    ensures
        spec_tile(TileType::Factory(Color::Red), row, col, textures, stencils) == (Tile {
            kind: TileType::Factory(Color::Red),
            row,
            col,
            texture: textures.red_factory,
            stencil: None,
        }),
        spec_tile(TileType::Factory(Color::Blue), row, col, textures, stencils) == (Tile {
            kind: TileType::Factory(Color::Blue),
            row,
            col,
            texture: textures.blue_factory,
            stencil: None,
        }),
        spec_tile(TileType::Factory(Color::Green), row, col, textures, stencils) == (Tile {
            kind: TileType::Factory(Color::Green),
            row,
            col,
            texture: textures.green_factory,
            stencil: None,
        }),
        spec_tile(TileType::Empty, row, col, textures, stencils) == (Tile {
            kind: TileType::Empty,
            row,
            col,
            texture: textures.empty_texture,
            stencil: None,
        }),
        spec_tile(TileType::Pipe(orientation), row, col, textures, stencils) == (Tile {
            kind: TileType::Pipe(orientation),
            row,
            col,
            texture: textures.pipe_texture,
            stencil: Some(stencils.pipe_stencil),
        }),
{
}

} // verus!
