//! The state of the simulation: run/pause/exit, the iteration count, the
//! measured speed, and the window and grid dimensions that the cell size follows.

use vstd::prelude::*;

use crate::geometry::{spec_unit_size, unit_size, Ratio};

verus! {

/// Whether the simulation is running, paused, or on its way out.
#[derive(Debug, PartialEq, Eq, Structural, Clone, Copy, Default)]
pub enum GameStatus {
    /// The game is exiting.
    Exit,
    /// The game is paused.
    #[default]
    Pause,
    /// The game is running.
    Running,
}

/// Main game state and configuration.
#[derive(Debug, Clone)]
pub struct Game {
    name: String,
    game_state: GameStatus,
    size_grid: u32,
    window_height: u32,
    window_width: u32,
    window_min_length: u32,
    unit_grid: Ratio,
    iteration: u32,
    start_time: i64,
    start_time_iteration: u32,
    max_iteration_per_second: u32,
}

/// What a `Game` holds, as values. Times are milliseconds since the Unix epoch.
pub struct GameView {
    pub name: Seq<char>,
    pub game_state: GameStatus,
    pub size_grid: u32,
    pub window_height: u32,
    pub window_width: u32,
    pub window_min_length: u32,
    pub unit_grid: Ratio,
    pub iteration: u32,
    pub start_time: i64,
    pub start_time_iteration: u32,
    pub max_iteration_per_second: u32,
}

pub open spec fn smaller(a: u32, b: u32) -> u32 {
    if a <= b {
        a
    } else {
        b
    }
}

/// Iterations per second in tenths, truncated: `done` iterations over the whole
/// seconds in `elapsed_millis`; zero when no whole second has passed.
pub open spec fn rate_tenths(done: int, elapsed_millis: int) -> int {
    let seconds = elapsed_millis / 1000;
    if done <= 0 || elapsed_millis < 1000 {
        0
    } else {
        (10 * done) / seconds
    }
}

impl GameView {
    /// The grid has some cells, the shorter side is the smaller of the two,
    /// and the side of a cell has a positive denominator.
    pub open spec fn wf(self) -> bool {
        &&& self.size_grid > 0
        &&& self.window_min_length == smaller(self.window_height, self.window_width)
        &&& self.unit_grid.den > 0
    }

    /// The side of a cell is the shorter window side over the grid size, so that
    /// `size_grid` cells fill exactly `window_min_length` pixels.
    pub open spec fn unit_fits(self) -> bool {
        self.unit_grid == spec_unit_size(self.window_min_length, self.size_grid)
    }

    /// The state after starting to run at time `now`: running, with `now` and
    /// the current iteration as the baseline. Exiting is final.
    pub open spec fn started_at(self, now: i64) -> GameView {
        if self.game_state == GameStatus::Exit {
            self
        } else {
            GameView {
                game_state: GameStatus::Running,
                start_time: now,
                start_time_iteration: self.iteration,
                ..self
            }
        }
    }

    /// The state after a reset at time `now`, whatever the state before:
    /// paused, at iteration zero, with the baseline at zero and at `now`.
    pub open spec fn reset_at(self, now: i64) -> GameView {
        GameView {
            game_state: GameStatus::Pause,
            iteration: 0,
            start_time: now,
            start_time_iteration: 0,
            ..self
        }
    }

    /// The measured speed at time `now`, in tenths of an iteration per second.
    pub open spec fn rate_at(self, now: i64) -> Ratio {
        Ratio {
            num: rate_tenths(
                self.iteration - self.start_time_iteration,
                now - self.start_time,
            ) as u64,
            den: 10,
        }
    }
}

impl View for Game {
    type V = GameView;

    closed spec fn view(&self) -> GameView {
        GameView {
            name: self.name@,
            game_state: self.game_state,
            size_grid: self.size_grid,
            window_height: self.window_height,
            window_width: self.window_width,
            window_min_length: self.window_min_length,
            unit_grid: self.unit_grid,
            iteration: self.iteration,
            start_time: self.start_time,
            start_time_iteration: self.start_time_iteration,
            max_iteration_per_second: self.max_iteration_per_second,
        }
    }
}

/// Relies on chrono's `From<SystemTime> for DateTime<Utc>` and
/// `DateTime::timestamp_millis`: the system clock now, in milliseconds since the
/// Unix epoch (negative for a clock set before it; no time zone is consulted).
/// Nothing is promised of its value.
#[verifier::external_body]
pub(crate) fn now_millis() -> (t: i64) {
    chrono::DateTime::<chrono::Utc>::from(std::time::SystemTime::now()).timestamp_millis()
}

/// A cell side recomputed from the window makes the grid fill the shorter side exactly.
proof fn lemma_unit_fits(v: GameView)
    requires
        v.unit_fits(),
    ensures
        v.size_grid * v.unit_grid.num == v.window_min_length * v.unit_grid.den,
{
    assert(v.size_grid * v.window_min_length == v.window_min_length * v.size_grid) by (nonlinear_arith);
}

/// The start of the status text for the game in state `v`. The grid takes
/// `size_grid * unit_grid` pixels, rounded down, from the left and the top.
pub open spec fn text_origin_of(v: GameView) -> (u32, u32) {
    let extent = v.size_grid * v.unit_grid.num;
    let den = v.unit_grid.den as int;
    if v.window_height * den > extent + 100 * den {
        (0, (extent / den) as u32)
    } else if v.window_width * den > extent + 100 * den {
        ((extent / den) as u32, 0)
    } else {
        (0, 0)
    }
}

/// A grid that leaves room beside it inside a side of `side` pixels ends within that side.
proof fn lemma_board_below(extent: int, den: int, side: int)
    requires
        0 <= extent,
        0 < den,
        side * den > extent,
    ensures
        extent / den < side,
{
    assert(extent / den < side) by (nonlinear_arith)
        requires
            0 <= extent,
            0 < den,
            side * den > extent,
    ;
}

impl Game {
    pub open spec fn wf(&self) -> bool {
        self@.wf()
    }

    /// Creates a new game: paused, at iteration zero, on a 100 by 100 grid in a
    /// 1000 by 1000 window, capped at 10 iterations per second.
    pub fn new() -> (game: Self)
        ensures
            game.wf(),
            game@.unit_fits(),
            game@.name == "Rust Of Life"@,
            game@.game_state == GameStatus::Pause,
            game@.size_grid == 100,
            game@.window_height == 1000,
            game@.window_width == 1000,
            game@.window_min_length == 1000,
            game@.iteration == 0,
            game@.start_time_iteration == 0,
            game@.max_iteration_per_second == 10,
    {
        proof {
            reveal_strlit("Rust Of Life");
        }
        let mut new_instance = Self {
            name: "Rust Of Life".to_owned(),
            game_state: GameStatus::Pause,
            size_grid: 100,
            window_height: 1000,
            window_width: 1000,
            window_min_length: 1000,
            unit_grid: Ratio::whole(0),
            iteration: 0,
            start_time: now_millis(),
            start_time_iteration: 0,
            max_iteration_per_second: 10,
        };
        new_instance.calculate_unit_grid();
        new_instance
    }

    fn calculate_unit_grid(&mut self)
        requires
            old(self).size_grid > 0,
        ensures
            final(self)@ == (GameView {
                unit_grid: spec_unit_size(old(self).window_min_length, old(self).size_grid),
                ..old(self)@
            }),
    {
        self.unit_grid = unit_size(self.window_min_length, self.size_grid);
    }

    /// The measured speed at time `now_millis`: the iterations since the run
    /// started over the whole seconds since then, truncated to tenths. It is zero
    /// before a whole second has passed, so that no division by zero occurs.
    pub fn iteration_per_second_at(&self, now_millis: i64) -> (r: Ratio)
        ensures
            r == self@.rate_at(now_millis),
    {
        if self.iteration <= self.start_time_iteration || now_millis <= self.start_time {
            return Ratio { num: 0, den: 10 };
        }
        let elapsed = (now_millis as i128 - self.start_time as i128) as u64;
        if elapsed < 1000 {
            return Ratio { num: 0, den: 10 };
        }
        let seconds = elapsed / 1000;
        let done = (self.iteration - self.start_time_iteration) as u64;
        Ratio { num: 10 * done / seconds, den: 10 }
    }

    /// Returns the number of iterations per second since the run started, in
    /// tenths, as measured now.
    pub fn get_iteration_per_second(&self) -> (r: Ratio)
        ensures
            exists|now: i64| r == self@.rate_at(now),
    {
        let now = now_millis();
        self.iteration_per_second_at(now)
    }

    /// Returns the name of the game.
    pub fn get_name(&self) -> (r: String)
        ensures
            r@ == self@.name,
    {
        self.name.clone()
    }

    /// Returns the current game state.
    pub fn get_game_state(&self) -> (r: GameStatus)
        ensures
            r == self@.game_state,
    {
        self.game_state
    }

    /// Returns the size of the grid.
    pub fn get_size_grid(&self) -> (r: u32)
        ensures
            r == self@.size_grid,
    {
        self.size_grid
    }

    /// Returns the window height.
    pub fn get_window_height(&self) -> (r: u32)
        ensures
            r == self@.window_height,
    {
        self.window_height
    }

    /// Returns the window width.
    pub fn get_window_width(&self) -> (r: u32)
        ensures
            r == self@.window_width,
    {
        self.window_width
    }

    /// Returns the side of a grid cell, in pixels.
    pub fn get_unit_grid(&self) -> (r: Ratio)
        ensures
            r == self@.unit_grid,
    {
        self.unit_grid
    }

    /// Returns the current iteration count.
    pub fn get_iteration(&self) -> (r: u32)
        ensures
            r == self@.iteration,
    {
        self.iteration
    }

    /// Returns the time the run started, in milliseconds since the Unix epoch.
    pub fn get_start_time(&self) -> (r: i64)
        ensures
            r == self@.start_time,
    {
        self.start_time
    }

    /// Returns the iteration count at the start time.
    pub fn get_start_time_iteration(&self) -> (r: u32)
        ensures
            r == self@.start_time_iteration,
    {
        self.start_time_iteration
    }

    /// Returns the maximum allowed iterations per second.
    pub fn get_max_iteration_per_second(&self) -> (r: u32)
        ensures
            r == self@.max_iteration_per_second,
    {
        self.max_iteration_per_second
    }

    /// Returns the shorter side of the window.
    pub fn get_window_min_length(&self) -> (r: u32)
        ensures
            r == self@.window_min_length,
    {
        self.window_min_length
    }

    /// Sets the current game state.
    pub fn set_game_state(&mut self, game_state: GameStatus)
        ensures
            final(self)@ == (GameView { game_state, ..old(self)@ }),
    {
        self.game_state = game_state;
    }

    /// Sets the grid size and updates the side of a cell to match.
    pub fn set_size_grid(&mut self, size_grid: u32)
        requires
            old(self).wf(),
            size_grid > 0,
        ensures
            final(self).wf(),
            final(self)@.unit_fits(),
            final(self)@ == (GameView {
                size_grid,
                unit_grid: spec_unit_size(old(self)@.window_min_length, size_grid),
                ..old(self)@
            }),
    {
        self.size_grid = size_grid;
        self.calculate_unit_grid();
    }

    /// Sets the window height; the shorter side and the side of a cell follow.
    pub fn set_window_height(&mut self, window_height: u32)
        requires
            old(self).wf(),
        ensures
            final(self).wf(),
            final(self)@.unit_fits(),
            final(self)@.size_grid * final(self)@.unit_grid.num
                == final(self)@.window_min_length * final(self)@.unit_grid.den,
            final(self)@ == (GameView {
                window_height,
                window_min_length: smaller(window_height, old(self)@.window_width),
                unit_grid: spec_unit_size(
                    smaller(window_height, old(self)@.window_width),
                    old(self)@.size_grid,
                ),
                ..old(self)@
            }),
    {
        self.window_height = window_height;
        self.window_min_length = if self.window_height <= self.window_width {
            self.window_height
        } else {
            self.window_width
        };
        self.calculate_unit_grid();
        proof {
            lemma_unit_fits(self@);
        }
    }

    /// Sets the window width; the shorter side and the side of a cell follow.
    pub fn set_window_width(&mut self, window_width: u32)
        requires
            old(self).wf(),
        ensures
            final(self).wf(),
            final(self)@.unit_fits(),
            final(self)@.size_grid * final(self)@.unit_grid.num
                == final(self)@.window_min_length * final(self)@.unit_grid.den,
            final(self)@ == (GameView {
                window_width,
                window_min_length: smaller(old(self)@.window_height, window_width),
                unit_grid: spec_unit_size(
                    smaller(old(self)@.window_height, window_width),
                    old(self)@.size_grid,
                ),
                ..old(self)@
            }),
    {
        self.window_width = window_width;
        self.window_min_length = if self.window_height <= self.window_width {
            self.window_height
        } else {
            self.window_width
        };
        self.calculate_unit_grid();
        proof {
            lemma_unit_fits(self@);
        }
    }

    /// Sets the side of a grid cell.
    pub fn set_unit_grid(&mut self, unit_grid: Ratio)
        requires
            old(self).wf(),
            unit_grid.den > 0,
        ensures
            final(self).wf(),
            final(self)@ == (GameView { unit_grid, ..old(self)@ }),
    {
        self.unit_grid = unit_grid;
    }

    /// Sets the current iteration count.
    pub fn set_iteration(&mut self, iteration: u32)
        ensures
            final(self)@ == (GameView { iteration, ..old(self)@ }),
    {
        self.iteration = iteration;
    }

    /// Sets the time the run started, in milliseconds since the Unix epoch.
    pub fn set_start_time(&mut self, start_time: i64)
        ensures
            final(self)@ == (GameView { start_time, ..old(self)@ }),
    {
        self.start_time = start_time;
    }

    /// Sets the iteration count at the start time.
    pub fn set_start_time_iteration(&mut self, start_time_iteration: u32)
        ensures
            final(self)@ == (GameView { start_time_iteration, ..old(self)@ }),
    {
        self.start_time_iteration = start_time_iteration;
    }

    /// Starts running at time `now_millis`: that time and the current iteration
    /// become the baseline that the speed is measured from. A game that is
    /// exiting stays so.
    pub fn run_at(&mut self, now_millis: i64)
        ensures
            final(self)@ == old(self)@.started_at(now_millis),
    {
        if self.game_state == GameStatus::Exit {
            return;
        }
        self.set_game_state(GameStatus::Running);
        self.set_start_time(now_millis);
        self.set_start_time_iteration(self.get_iteration());
    }

    /// Starts running, timed by the clock now: see `run_at`.
    pub fn run(&mut self)
        ensures
            exists|now: i64| final(self)@ == old(self)@.started_at(now),
    {
        self.run_at(now_millis());
    }

    /// Takes the window's current size: when it differs from the one held, the
    /// sizes, the shorter side and the side of a cell are updated and `true`
    /// comes back; otherwise nothing changes.
    pub fn on_resize(&mut self, window_width: u32, window_height: u32) -> (changed: bool)
        requires
            old(self).wf(),
        ensures
            final(self).wf(),
            changed == (window_width != old(self)@.window_width || window_height != old(self)@.window_height),
            !changed ==> final(self)@ == old(self)@,
            changed ==> final(self)@.unit_fits(),
            changed ==> final(self)@ == (GameView {
                window_width,
                window_height,
                window_min_length: smaller(window_height, window_width),
                unit_grid: spec_unit_size(smaller(window_height, window_width), old(self)@.size_grid),
                ..old(self)@
            }),
    {
        if window_width != self.window_width || window_height != self.window_height {
            self.set_window_width(window_width);
            self.set_window_height(window_height);
            true
        } else {
            false
        }
    }

    /// Where the status text starts: below the grid when more than 100 pixels
    /// of the window lie below it, else right of the grid when more than 100
    /// pixels lie there, else at the window's corner.
    pub fn text_origin(&self) -> (origin: (u32, u32))
        requires
            self.wf(),
        ensures
            origin == text_origin_of(self@),
    {
        let size_grid = self.size_grid as u128;
        let num = self.unit_grid.num as u128;
        assert(size_grid * num <= 0xffff_ffff * 0xffff_ffff_ffff_ffffu128) by (nonlinear_arith)
            requires
                size_grid <= 0xffff_ffff,
                num <= 0xffff_ffff_ffff_ffffu128,
        ;
        let extent = size_grid * num;
        let den = self.unit_grid.den as u128;
        assert(self.window_height as u128 * den <= 0xffff_ffff * 0xffff_ffff_ffff_ffffu128) by (nonlinear_arith)
            requires
                den <= 0xffff_ffff_ffff_ffffu128,
        ;
        assert(self.window_width as u128 * den <= 0xffff_ffff * 0xffff_ffff_ffff_ffffu128) by (nonlinear_arith)
            requires
                den <= 0xffff_ffff_ffff_ffffu128,
        ;
        if self.window_height as u128 * den > extent + 100 * den {
            proof {
                lemma_board_below(extent as int, den as int, self.window_height as int);
            }
            (0, (extent / den) as u32)
        } else if self.window_width as u128 * den > extent + 100 * den {
            proof {
                lemma_board_below(extent as int, den as int, self.window_width as int);
            }
            ((extent / den) as u32, 0)
        } else {
            (0, 0)
        }
    }

    /// Resets the game at time `now_millis`, from any state: iteration zero,
    /// the baseline back to zero at that time, paused.
    pub fn reset_at(&mut self, now_millis: i64)
        ensures
            final(self)@ == old(self)@.reset_at(now_millis),
    {
        self.set_iteration(0);
        self.set_start_time(now_millis);
        self.set_start_time_iteration(0);
        self.set_game_state(GameStatus::Pause);
    }

    /// Resets the game, timed by the clock now: see `reset_at`.
    pub fn reset(&mut self)
        ensures
            exists|now: i64| final(self)@ == old(self)@.reset_at(now),
    {
        self.reset_at(now_millis());
    }
}

} // verus!
