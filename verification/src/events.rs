use vstd::prelude::*;
use rand::Rng;
use crate::texture::Texture;
use crate::game::tiles::{Board, Color, Orientation, Tile, TileStencils, TileTextures, TileType, grid_set, spec_tile};

verus! {

/// The keys that the game reacts to; every other key is `Other`.
#[derive(Clone, Copy, PartialEq, Eq, Structural, Debug)]
pub enum Key {
    Escape,
    Right,
    Left,
    Up,
    Down,
    Space,
    F,
    Other,
}

/// An event of the game window.
#[derive(Clone, Copy, PartialEq, Eq, Structural, Debug)]
pub enum WindowEvent {
    /// A key went down.
    KeyPress(Key),
    /// The framebuffer now has this width and height.
    FramebufferSize(i32, i32),
    /// Anything else (key releases, mouse buttons, ...).
    Other,
}

/// What the window must do after an event.
#[derive(Clone, Copy, PartialEq, Eq, Structural, Debug)]
pub enum WindowAction {
    Nothing,
    /// Mark the window as to be closed.
    Close,
    /// Set the drawing viewport to `(0, 0, width, height)`.
    SetViewport(i32, i32),
}

/// The factory colour chosen by a roll of a three-sided die.
pub open spec fn spec_factory_color(roll: u32) -> Option<Color> {
    if roll == 0 {
        Some(Color::Red)
    } else if roll == 1 {
        Some(Color::Blue)
    } else if roll == 2 {
        Some(Color::Green)
    } else {
        None
    }
}

/// The selected cell `(row, col)` after `event`: the arrow keys move it by one.
pub open spec fn spec_move_cursor(event: WindowEvent, row: int, col: int) -> (int, int) {
    match event {
        WindowEvent::KeyPress(Key::Right) => (row, col + 1),
        WindowEvent::KeyPress(Key::Left) => (row, col - 1),
        WindowEvent::KeyPress(Key::Up) => (row - 1, col),
        WindowEvent::KeyPress(Key::Down) => (row + 1, col),
        _ => (row, col),
    }
}

/// The events that can be handled with `(row, col)` selected on a board
/// whose tiles are `grid`: the cursor may not leave the range of `usize`, and
/// a tile is only placed on a cell that the board holds.
pub open spec fn event_allowed(grid: Seq<Seq<Tile>>, row: usize, col: usize, event: WindowEvent) -> bool {
    match event {
        WindowEvent::KeyPress(Key::Right) => col < usize::MAX,
        WindowEvent::KeyPress(Key::Left) => col > 0,
        WindowEvent::KeyPress(Key::Up) => row > 0,
        WindowEvent::KeyPress(Key::Down) => row < usize::MAX,
        WindowEvent::KeyPress(Key::Space) | WindowEvent::KeyPress(Key::F) => {
            &&& row < grid.len()
            &&& col < grid[row as int].len()
            &&& row <= i32::MAX
            &&& col <= i32::MAX
        },
        _ => true,
    }
}

/// The kind of tile that `event` places, with `roll` the die roll that picks
/// the colour of a factory; none for the events that place nothing.
pub open spec fn spec_placed_kind(event: WindowEvent, roll: u32) -> Option<TileType> {
    match event {
        WindowEvent::KeyPress(Key::Space) => match spec_factory_color(roll) {
            Some(color) => Some(TileType::Factory(color)),
            None => None,
        },
        WindowEvent::KeyPress(Key::F) => Some(TileType::Pipe(Orientation::Horizontal)),
        _ => None,
    }
}

/// The tiles after `event` with `(row, col)` selected, on a board drawn with
/// `textures` and `stencils`: the placed tile, if any, replaces the one at
/// the cursor.
pub open spec fn spec_grid_after(
    grid: Seq<Seq<Tile>>,
    textures: TileTextures,
    stencils: TileStencils,
    row: int,
    col: int,
    event: WindowEvent,
    roll: u32,
) -> Seq<Seq<Tile>> {
    match spec_placed_kind(event, roll) {
        Some(kind) => grid_set(grid, row, col, spec_tile(kind, row as i32, col as i32, textures, stencils)),
        None => grid,
    }
}

/// The tile kinds after `event` with `(row, col)` selected: space places a
/// factory of the colour that `roll` picks, `F` a horizontal pipe.
pub open spec fn spec_kinds_after(
    kinds: Seq<Seq<TileType>>,
    row: int,
    col: int,
    event: WindowEvent,
    roll: u32,
) -> Seq<Seq<TileType>> {
    match event {
        WindowEvent::KeyPress(Key::Space) => match spec_factory_color(roll) {
            Some(color) => grid_set(kinds, row, col, TileType::Factory(color)),
            None => kinds,
        },
        WindowEvent::KeyPress(Key::F) => grid_set(kinds, row, col, TileType::Pipe(Orientation::Horizontal)),
        _ => kinds,
    }
}

/// What the window must do after `event`.
pub open spec fn spec_action(event: WindowEvent) -> WindowAction {
    match event {
        WindowEvent::KeyPress(Key::Escape) => WindowAction::Close,
        WindowEvent::FramebufferSize(width, height) => WindowAction::SetViewport(width, height),
        _ => WindowAction::Nothing,
    }
}

/// Calls `rand::thread_rng().gen_range(0..3)`; the crate documents the result
/// to lie in the half-open range. Which value comes back is left open.
#[verifier::external_body]
fn random_factory_roll() -> (roll: u32)
    ensures
        roll < 3,
{
    rand::thread_rng().gen_range(0..3)
}

/// The factory colour chosen by `roll`: 0 red, 1 blue, 2 green, none otherwise.
pub fn factory_color(roll: u32) -> (color: Option<Color>)
    ensures
        color == spec_factory_color(roll),
{
    match roll {
        0 => Some(Color::Red),
        1 => Some(Color::Blue),
        2 => Some(Color::Green),
        _ => None,
    }
}

/// Handles one window event with the cell `(row, col)` selected, taking `roll`
/// as the die roll that picks the colour of a factory placed by the space key.
pub fn handle_window_event_with_roll(
    board: &mut Board,
    row: &mut usize,
    col: &mut usize,
    event: WindowEvent,
    roll: u32,
) -> (action: WindowAction)
    requires
        event_allowed(old(board).grid(), *old(row), *old(col), event),
    ensures
        old(board).wf() ==> final(board).wf(),
        final(board).rows == old(board).rows,
        final(board).cols == old(board).cols,
        final(board).textures == old(board).textures,
        final(board).stencils == old(board).stencils,
        (*final(row) as int, *final(col) as int) == spec_move_cursor(event, *old(row) as int, *old(col) as int),
        final(board).grid() == spec_grid_after(
            old(board).grid(),
            old(board).textures,
            old(board).stencils,
            *old(row) as int,
            *old(col) as int,
            event,
            roll,
        ),
        final(board).kinds() == spec_kinds_after(old(board).kinds(), *old(row) as int, *old(col) as int, event, roll),
        action == spec_action(event),
        final(board).grid().len() == old(board).grid().len(),
        forall|r: int|
            0 <= r < old(board).grid().len() ==> (#[trigger] final(board).grid()[r]).len()
                == old(board).grid()[r].len(),
        forall|r: int, c: int|
            0 <= r < old(board).grid().len() && 0 <= c < old(board).grid()[r].len() && (r
                != *old(row) as int || c != *old(col) as int) ==> #[trigger] final(board).grid()[r][c]
                == old(board).grid()[r][c],
        event == WindowEvent::KeyPress(Key::F) ==> final(board).grid()[*old(row) as int][*old(col) as int]
            == (Tile {
                kind: TileType::Pipe(Orientation::Horizontal),
                row: *old(row) as i32,
                col: *old(col) as i32,
                texture: old(board).textures.pipe_texture,
                stencil: Some(old(board).stencils.pipe_stencil),
            }),
        event != WindowEvent::KeyPress(Key::Space) && event != WindowEvent::KeyPress(Key::F)
            ==> final(board).grid() == old(board).grid(),
        event matches WindowEvent::FramebufferSize(w, h) ==> action == WindowAction::SetViewport(w, h),
        event == WindowEvent::KeyPress(Key::Escape) ==> action == WindowAction::Close,
        event != WindowEvent::KeyPress(Key::Escape) && !(event is FramebufferSize) ==> action
            == WindowAction::Nothing,
        event == WindowEvent::KeyPress(Key::Space) && roll == 0 ==> final(board).grid()[*old(row) as int][*old(col) as int]
            == (Tile {
                kind: TileType::Factory(Color::Red),
                row: *old(row) as i32,
                col: *old(col) as i32,
                texture: old(board).textures.red_factory,
                stencil: None,
            }),
        event == WindowEvent::KeyPress(Key::Space) && roll == 1 ==> final(board).grid()[*old(row) as int][*old(col) as int]
            == (Tile {
                kind: TileType::Factory(Color::Blue),
                row: *old(row) as i32,
                col: *old(col) as i32,
                texture: old(board).textures.blue_factory,
                stencil: None,
            }),
        event == WindowEvent::KeyPress(Key::Space) && roll == 2 ==> final(board).grid()[*old(row) as int][*old(col) as int]
            == (Tile {
                kind: TileType::Factory(Color::Green),
                row: *old(row) as i32,
                col: *old(col) as i32,
                texture: old(board).textures.green_factory,
                stencil: None,
            }),
        event == WindowEvent::KeyPress(Key::Space) && roll >= 3 ==> final(board).grid() == old(board).grid(),
{
    match event {
        WindowEvent::KeyPress(key) => {
            match key {
                Key::Escape => {
                    return WindowAction::Close;
                },
                Key::Right => {
                    *col += 1;
                },
                Key::Left => {
                    *col -= 1;
                },
                Key::Up => {
                    *row -= 1;
                },
                Key::Down => {
                    *row += 1;
                },
                Key::Space => {
                    match factory_color(roll) {
                        Some(color) => board.set_tile(*row as i32, *col as i32, TileType::Factory(color)),
                        None => {},
                    }
                },
                Key::F => {
                    board.set_tile(*row as i32, *col as i32, TileType::Pipe(Orientation::Horizontal));
                },
                Key::Other => {},
            }
            WindowAction::Nothing
        },
        WindowEvent::FramebufferSize(width, height) => WindowAction::SetViewport(width, height),
        WindowEvent::Other => WindowAction::Nothing,
    }
}

/// Handles one window event with the cell `(row, col)` selected. The space key
/// places a factory of a colour picked at random; every other effect is fixed.
pub fn handle_window_event(board: &mut Board, row: &mut usize, col: &mut usize, event: WindowEvent) -> (action: WindowAction)
    requires
        event_allowed(old(board).grid(), *old(row), *old(col), event),
    ensures
        old(board).wf() ==> final(board).wf(),
        final(board).rows == old(board).rows,
        final(board).cols == old(board).cols,
        final(board).textures == old(board).textures,
        final(board).stencils == old(board).stencils,
        (*final(row) as int, *final(col) as int) == spec_move_cursor(event, *old(row) as int, *old(col) as int),
        exists|roll: u32|
            roll < 3 && final(board).kinds() == #[trigger] spec_kinds_after(
                old(board).kinds(),
                *old(row) as int,
                *old(col) as int,
                event,
                roll,
            ) && final(board).grid() == spec_grid_after(
                old(board).grid(),
                old(board).textures,
                old(board).stencils,
                *old(row) as int,
                *old(col) as int,
                event,
                roll,
            ),
        action == spec_action(event),
        final(board).grid().len() == old(board).grid().len(),
        forall|r: int|
            0 <= r < old(board).grid().len() ==> (#[trigger] final(board).grid()[r]).len()
                == old(board).grid()[r].len(),
        forall|r: int, c: int|
            0 <= r < old(board).grid().len() && 0 <= c < old(board).grid()[r].len() && (r
                != *old(row) as int || c != *old(col) as int) ==> #[trigger] final(board).grid()[r][c]
                == old(board).grid()[r][c],
        event == WindowEvent::KeyPress(Key::F) ==> final(board).grid()[*old(row) as int][*old(col) as int]
            == (Tile {
                kind: TileType::Pipe(Orientation::Horizontal),
                row: *old(row) as i32,
                col: *old(col) as i32,
                texture: old(board).textures.pipe_texture,
                stencil: Some(old(board).stencils.pipe_stencil),
            }),
        event != WindowEvent::KeyPress(Key::Space) && event != WindowEvent::KeyPress(Key::F)
            ==> final(board).grid() == old(board).grid(),
        event matches WindowEvent::FramebufferSize(w, h) ==> action == WindowAction::SetViewport(w, h),
        event == WindowEvent::KeyPress(Key::Escape) ==> action == WindowAction::Close,
        event != WindowEvent::KeyPress(Key::Escape) && !(event is FramebufferSize) ==> action
            == WindowAction::Nothing,
        event == WindowEvent::KeyPress(Key::Space) ==> {
            let t = final(board).grid()[*old(row) as int][*old(col) as int];
            &&& t.row == *old(row) as i32
            &&& t.col == *old(col) as i32
            &&& t.stencil == None::<Texture>
            &&& {
                ||| t.kind == TileType::Factory(Color::Red) && t.texture == old(board).textures.red_factory
                ||| t.kind == TileType::Factory(Color::Blue) && t.texture == old(board).textures.blue_factory
                ||| t.kind == TileType::Factory(Color::Green) && t.texture == old(board).textures.green_factory
            }
        },
{
    let roll = match event {
        WindowEvent::KeyPress(Key::Space) => random_factory_roll(),
        _ => 0,
    };
    handle_window_event_with_roll(board, row, col, event, roll)
}

/// Each arrow key undoes the opposite one: right after left, left after
/// right, down after up and up after down bring the cursor back.
pub proof fn lemma_opposite_keys_undo(row: int, col: int)
    ensures
        ({
            let (r, c) = spec_move_cursor(WindowEvent::KeyPress(Key::Left), row, col);
            spec_move_cursor(WindowEvent::KeyPress(Key::Right), r, c)
        }) == (row, col),
        ({
            let (r, c) = spec_move_cursor(WindowEvent::KeyPress(Key::Right), row, col);
            spec_move_cursor(WindowEvent::KeyPress(Key::Left), r, c)
        }) == (row, col),
        ({
            let (r, c) = spec_move_cursor(WindowEvent::KeyPress(Key::Up), row, col);
            spec_move_cursor(WindowEvent::KeyPress(Key::Down), r, c)
        }) == (row, col),
        ({
            let (r, c) = spec_move_cursor(WindowEvent::KeyPress(Key::Down), row, col);
            spec_move_cursor(WindowEvent::KeyPress(Key::Up), r, c)
        }) == (row, col),
{
}

/// Whatever the die shows, the space key puts a factory on the selected cell
/// and leaves every other cell as it was.
pub proof fn lemma_space_places_factory(kinds: Seq<Seq<TileType>>, row: int, col: int, roll: u32)
    requires
        roll < 3,
        0 <= row < kinds.len(),
        0 <= col < kinds[row].len(),
    ensures
        spec_kinds_after(kinds, row, col, WindowEvent::KeyPress(Key::Space), roll)[row][col] is Factory,
        forall|r: int, c: int|
            0 <= r < kinds.len() && 0 <= c < kinds[r].len() && (r != row || c != col) ==>
                #[trigger] spec_kinds_after(kinds, row, col, WindowEvent::KeyPress(Key::Space), roll)[r][c]
                    == kinds[r][c],
{
    let color = spec_factory_color(roll)->0;
    assert(spec_kinds_after(kinds, row, col, WindowEvent::KeyPress(Key::Space), roll)[row][col]
        == TileType::Factory(color));
}

/// Only the space key and `F` change the tiles of the board.
pub proof fn lemma_only_placing_keys_change_tiles(
    kinds: Seq<Seq<TileType>>,
    row: int,
    col: int,
    event: WindowEvent,
    roll: u32,
)
    requires
        event != WindowEvent::KeyPress(Key::Space),
        event != WindowEvent::KeyPress(Key::F),
    ensures
        spec_kinds_after(kinds, row, col, event, roll) == kinds,
{
}

/// The F key puts a horizontal pipe, drawn with the board's pipe texture and
/// masked with its pipe stencil, on the selected cell whatever stood there,
/// and changes no other cell; the size of the grid stays.
pub proof fn lemma_f_always_places_pipe(
    grid: Seq<Seq<Tile>>,
    textures: TileTextures,
    stencils: TileStencils,
    row: int,
    col: int,
    roll: u32,
)
    requires
        0 <= row < grid.len(),
        0 <= col < grid[row].len(),
    ensures
        ({
            let after = spec_grid_after(grid, textures, stencils, row, col, WindowEvent::KeyPress(Key::F), roll);
            &&& after.len() == grid.len()
            &&& forall|r: int| 0 <= r < grid.len() ==> (#[trigger] after[r]).len() == grid[r].len()
            &&& after[row][col] == (Tile {
                kind: TileType::Pipe(Orientation::Horizontal),
                row: row as i32,
                col: col as i32,
                texture: textures.pipe_texture,
                stencil: Some(stencils.pipe_stencil),
            })
            &&& forall|r: int, c: int|
                0 <= r < grid.len() && 0 <= c < grid[r].len() && (r != row || c != col)
                    ==> #[trigger] after[r][c] == grid[r][c]
        }),
        spec_kinds_after(
            grid.map_values(|t_row: Seq<Tile>| t_row.map_values(|t: Tile| t.kind)),
            row,
            col,
            WindowEvent::KeyPress(Key::F),
            roll,
        )[row][col] == TileType::Pipe(Orientation::Horizontal),
{
}

/// With the die showing 0, 1 or 2 the space key puts a red, blue or green
/// factory on the selected cell, drawn with the board's texture for that
/// colour and with no stencil.
pub proof fn lemma_space_roll_colours(
    grid: Seq<Seq<Tile>>,
    textures: TileTextures,
    stencils: TileStencils,
    row: int,
    col: int,
)
    requires
        0 <= row < grid.len(),
        0 <= col < grid[row].len(),
    ensures
        spec_grid_after(grid, textures, stencils, row, col, WindowEvent::KeyPress(Key::Space), 0)[row][col]
            == (Tile {
            kind: TileType::Factory(Color::Red),
            row: row as i32,
            col: col as i32,
            texture: textures.red_factory,
            stencil: None,
        }),
        spec_grid_after(grid, textures, stencils, row, col, WindowEvent::KeyPress(Key::Space), 1)[row][col]
            == (Tile {
            kind: TileType::Factory(Color::Blue),
            row: row as i32,
            col: col as i32,
            texture: textures.blue_factory,
            stencil: None,
        }),
        spec_grid_after(grid, textures, stencils, row, col, WindowEvent::KeyPress(Key::Space), 2)[row][col]
            == (Tile {
            kind: TileType::Factory(Color::Green),
            row: row as i32,
            col: col as i32,
            texture: textures.green_factory,
            stencil: None,
        }),
{
}

/// A resize to `width` by `height` sets the viewport to exactly that width
/// and height, Escape closes the window, and every other event asks nothing
/// of the window.
pub proof fn lemma_window_actions(width: i32, height: i32, key: Key)
    ensures
        spec_action(WindowEvent::FramebufferSize(width, height)) == WindowAction::SetViewport(width, height),
        spec_action(WindowEvent::KeyPress(Key::Escape)) == WindowAction::Close,
        key != Key::Escape ==> spec_action(WindowEvent::KeyPress(key)) == WindowAction::Nothing,
        spec_action(WindowEvent::Other) == WindowAction::Nothing,
{
}

} // verus!
