//! What the player's input does to the grid and to the game.

use vstd::prelude::*;

use crate::game::{now_millis, Game, GameStatus, GameView};
use crate::geometry::Ratio;
use crate::utils::cells;

verus! {

/// An input of the player, as the simulation sees it.
#[derive(Debug, PartialEq, Eq, Structural, Clone, Copy)]
pub enum InputEvent {
    /// The window was closed or Escape was pressed.
    Quit,
    /// Space was pressed: pause a running game, resume a paused one.
    TogglePause,
    /// R was pressed: clear the grid and start over.
    Reset,
    /// The mouse moved to pixel `(x, y)`; a held left button paints cells
    /// alive, a held right button paints them dead.
    MouseMotion { x: i32, y: i32, left: bool, right: bool },
    /// A mouse button went down at pixel `(x, y)`: the cell there flips.
    MouseButtonDown { x: i32, y: i32 },
}

/// The cell index that pixel coordinate `p` falls in, for cells of side
/// `unit`: the quotient truncated toward zero, held to the range of `i32`.
/// Cells of no width put every pixel but the origin infinitely far out.
pub open spec fn pixel_to_cell(p: int, unit: Ratio) -> int {
    let q = if unit.num == 0 {
        if p > 0 {
            i32::MAX as int + 1
        } else if p < 0 {
            i32::MIN as int - 1
        } else {
            0
        }
    } else if p >= 0 {
        (p * unit.den) / (unit.num as int)
    } else {
        -(((-p) * unit.den) / (unit.num as int))
    };
    if q > i32::MAX {
        i32::MAX as int
    } else if q < i32::MIN {
        i32::MIN as int
    } else {
        q
    }
}

/// Column `cell_x` and row `cell_y` lie on a grid of `size_grid` by `size_grid` cells.
pub open spec fn in_map(cell_x: int, cell_y: int, size_grid: int) -> bool {
    0 <= cell_x < size_grid && 0 <= cell_y < size_grid
}

fn cell_of_pixel(p: i32, unit: Ratio) -> (cell: i32)
    ensures
        cell == pixel_to_cell(p as int, unit),
{
    if unit.num == 0 {
        return if p > 0 {
            i32::MAX
        } else if p < 0 {
            i32::MIN
        } else {
            0
        };
    }
    let magnitude: u128 = if p >= 0 {
        p as u128
    } else {
        (-(p as i64)) as u128
    };
    assert(magnitude * unit.den <= 0x8000_0000 * 0xffff_ffff_ffff_ffffu128) by (nonlinear_arith)
        requires
            magnitude <= 0x8000_0000,
            unit.den <= 0xffff_ffff_ffff_ffffu128,
    ;
    let q = magnitude * (unit.den as u128) / (unit.num as u128);
    if p >= 0 {
        if q > i32::MAX as u128 {
            i32::MAX
        } else {
            q as i32
        }
    } else {
        if q > 0x8000_0000u128 {
            i32::MIN
        } else {
            (-(q as i64)) as i32
        }
    }
}

/// The column and row of the cell under pixel `(x, y)`. The result is not
/// checked against the grid: see `check_cell_in_map`.
pub fn calculate_cell_position(x: i32, y: i32, game_info: &Game) -> (cell: (i32, i32))
    ensures
        cell.0 == pixel_to_cell(x as int, game_info@.unit_grid),
        cell.1 == pixel_to_cell(y as int, game_info@.unit_grid),
{
    let unit = game_info.get_unit_grid();
    (cell_of_pixel(x, unit), cell_of_pixel(y, unit))
}

/// Whether column `cell_x` and row `cell_y` lie on the grid.
pub fn check_cell_in_map(cell_x: i32, cell_y: i32, game_info: &Game) -> (r: bool)
    ensures
        r == in_map(cell_x as int, cell_y as int, game_info@.size_grid as int),
{
    let size_grid = game_info.get_size_grid() as i64;
    cell_x >= 0 && (cell_x as i64) < size_grid && cell_y >= 0 && (cell_y as i64) < size_grid
}

/// Column `col` and row `row` name a cell that the grid holds.
pub open spec fn on_grid(g: Seq<Seq<bool>>, col: int, row: int) -> bool {
    0 <= row < g.len() && 0 <= col < g[row].len()
}

/// The grid with the cell in column `col`, row `row` set to `alive`.
pub open spec fn set_cell(g: Seq<Seq<bool>>, col: int, row: int, alive: bool) -> Seq<Seq<bool>> {
    g.update(row, g[row].update(col, alive))
}

/// The grid after painting the cell under pixel `(x, y)` with `alive`; a
/// pixel off the grid, or off the cells that `g` holds, paints nothing.
pub open spec fn paint_at(g: Seq<Seq<bool>>, v: GameView, x: i32, y: i32, alive: bool) -> Seq<Seq<bool>> {
    let col = pixel_to_cell(x as int, v.unit_grid);
    let row = pixel_to_cell(y as int, v.unit_grid);
    if in_map(col, row, v.size_grid as int) && on_grid(g, col, row) {
        set_cell(g, col, row, alive)
    } else {
        g
    }
}

/// The grid after flipping the cell under pixel `(x, y)`.
pub open spec fn toggle_at(g: Seq<Seq<bool>>, v: GameView, x: i32, y: i32) -> Seq<Seq<bool>> {
    let col = pixel_to_cell(x as int, v.unit_grid);
    let row = pixel_to_cell(y as int, v.unit_grid);
    if in_map(col, row, v.size_grid as int) && on_grid(g, col, row) {
        set_cell(g, col, row, !g[row][col])
    } else {
        g
    }
}

/// A grid of the same shape with every cell dead.
pub open spec fn cleared(g: Seq<Seq<bool>>) -> Seq<Seq<bool>> {
    Seq::new(g.len(), |i: int| Seq::new(g[i].len(), |j: int| false))
}

/// What `event` does to grid `g` while the game is in state `v`.
pub open spec fn grid_after(event: InputEvent, g: Seq<Seq<bool>>, v: GameView) -> Seq<Seq<bool>> {
    match event {
        InputEvent::Reset => cleared(g),
        InputEvent::MouseMotion { x, y, left, right } => {
            if left {
                paint_at(g, v, x, y, true)
            } else if right {
                paint_at(g, v, x, y, false)
            } else {
                g
            }
        },
        InputEvent::MouseButtonDown { x, y } => toggle_at(g, v, x, y),
        _ => g,
    }
}

/// The state of the game after `event` arrives at time `now` in state `v`.
/// Space pauses a running game and resumes a paused one; an exiting game it
/// leaves alone. Reset works from every state.
pub open spec fn game_after(event: InputEvent, v: GameView, now: i64) -> GameView {
    match event {
        InputEvent::Quit => GameView { game_state: GameStatus::Exit, ..v },
        InputEvent::TogglePause => if v.game_state == GameStatus::Pause {
            v.started_at(now)
        } else if v.game_state == GameStatus::Running {
            GameView { game_state: GameStatus::Pause, ..v }
        } else {
            v
        },
        InputEvent::Reset => v.reset_at(now),
        _ => v,
    }
}

fn holds_cell(list_color: &Vec<Vec<bool>>, col: usize, row: usize) -> (r: bool)
    ensures
        r == on_grid(cells(list_color@), col as int, row as int),
{
    row < list_color.len() && col < list_color[row].len()
}

fn set_cell_at(list_color: &mut Vec<Vec<bool>>, col: usize, row: usize, alive: bool)
    requires
        row < old(list_color)@.len(),
        col < old(list_color)@[row as int]@.len(),
    ensures
        cells(final(list_color)@) == set_cell(cells(old(list_color)@), col as int, row as int, alive),
{
    list_color[row][col] = alive;
    assert(cells(list_color@) =~= set_cell(cells(old(list_color)@), col as int, row as int, alive));
}

/// Applies one input event, arriving at time `now_millis`, to the grid and the game.
pub fn handle_event_at(event: InputEvent, list_color: &mut Vec<Vec<bool>>, game_info: &mut Game, now_millis: i64)
    requires
        old(game_info).wf(),
    ensures
        final(game_info).wf(),
        cells(final(list_color)@) == grid_after(event, cells(old(list_color)@), old(game_info)@),
        final(game_info)@ == game_after(event, old(game_info)@, now_millis),
{
    match event {
        InputEvent::Quit => {
            game_info.set_game_state(GameStatus::Exit);
        },
        InputEvent::TogglePause => {
            match game_info.get_game_state() {
                GameStatus::Pause => {
                    game_info.run_at(now_millis);
                },
                GameStatus::Running => {
                    game_info.set_game_state(GameStatus::Pause);
                },
                GameStatus::Exit => {},
            }
        },
        InputEvent::Reset => {
            game_info.reset_at(now_millis);
            clear_grid(list_color);
        },
        InputEvent::MouseMotion { x, y, left, right } => {
            if left || right {
                let (cell_x, cell_y) = calculate_cell_position(x, y, game_info);
                if check_cell_in_map(cell_x, cell_y, game_info) && holds_cell(list_color, cell_x as usize, cell_y as usize) {
                    set_cell_at(list_color, cell_x as usize, cell_y as usize, left);
                }
            }
        },
        InputEvent::MouseButtonDown { x, y } => {
            let (cell_x, cell_y) = calculate_cell_position(x, y, game_info);
            if check_cell_in_map(cell_x, cell_y, game_info) && holds_cell(list_color, cell_x as usize, cell_y as usize) {
                assert(cells(list_color@)[cell_y as int] == list_color@[cell_y as int]@);
                let alive = list_color[cell_y as usize][cell_x as usize];
                set_cell_at(list_color, cell_x as usize, cell_y as usize, !alive);
            }
        },
    }
}

/// Applies one input event to the grid and the game, timed by the clock now:
/// see `handle_event_at`.
pub fn handle_event(event: InputEvent, list_color: &mut Vec<Vec<bool>>, game_info: &mut Game)
    requires
        old(game_info).wf(),
    ensures
        final(game_info).wf(),
        cells(final(list_color)@) == grid_after(event, cells(old(list_color)@), old(game_info)@),
        exists|now: i64| final(game_info)@ == game_after(event, old(game_info)@, now),
{
    let now = now_millis();
    handle_event_at(event, list_color, game_info, now);
}

/// Sets every cell of the grid dead, keeping its shape.
fn clear_grid(list_color: &mut Vec<Vec<bool>>)
    ensures
        cells(final(list_color)@) == cleared(cells(old(list_color)@)),
{
    let ghost g = cells(list_color@);
    let mut i: usize = 0;
    while i < list_color.len()
        invariant
            g == cells(old(list_color)@),
            i <= list_color@.len(),
            list_color@.len() == g.len(),
            forall|k: int| 0 <= k < i ==> #[trigger] cells(list_color@)[k] == cleared(g)[k],
            forall|k: int| i <= k < g.len() ==> #[trigger] cells(list_color@)[k] == g[k],
        decreases list_color.len() - i,
    {
        let n = list_color[i].len();
        assert(cells(list_color@)[i as int] == list_color@[i as int]@);
        let mut row: Vec<bool> = Vec::new();
        let mut j: usize = 0;
        while j < n
            invariant
                j <= n,
                row@.len() == j,
                forall|k: int| 0 <= k < j ==> #[trigger] row@[k] == false,
            decreases n - j,
        {
            row.push(false);
            j += 1;
        }
        assert(row@ =~= cleared(g)[i as int]);
        let ghost before = list_color@;
        list_color.set(i, row);
        assert forall|k: int| 0 <= k < g.len() implies #[trigger] cells(list_color@)[k] == if k <= i {
            cleared(g)[k]
        } else {
            g[k]
        } by {
            if k != i {
                assert(list_color@[k] == before[k]);
                assert(cells(before)[k] == before[k]@);
            }
        }
        i += 1;
    }
    assert(cells(list_color@) =~= cleared(g));
}

} // verus!
