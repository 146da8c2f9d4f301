//! The evolution engine and the geometry that the renderer draws.

use vstd::prelude::*;

use crate::game::{Game, GameStatus, GameView};
use crate::geometry::{cell_rect, spec_cell_rect, Point, Ratio, Rect};

verus! {

/// The cells of a grid as rows of booleans, `true` for a live cell.
pub open spec fn cells(list: Seq<Vec<bool>>) -> Seq<Seq<bool>> {
    list.map_values(|row: Vec<bool>| row@)
}

/// Every row has as many cells as the first one.
pub open spec fn is_rectangular(g: Seq<Seq<bool>>) -> bool {
    forall|i: int| 0 <= i < g.len() ==> #[trigger] g[i].len() == g[0].len()
}

/// The grid is small enough that its indices fit an `i32`.
pub open spec fn fits_i32(g: Seq<Seq<bool>>) -> bool {
    &&& g.len() <= i32::MAX
    &&& g.len() > 0 ==> g[0].len() <= i32::MAX
}

/// The cell at row `i`, column `j` is on the grid and alive; a cell off the grid counts as dead.
pub open spec fn cell_alive(g: Seq<Seq<bool>>, i: int, j: int) -> bool {
    0 <= i < g.len() && 0 <= j < g[i].len() && g[i][j]
}

pub open spec fn alive_count(g: Seq<Seq<bool>>, i: int, j: int) -> int {
    if cell_alive(g, i, j) {
        1
    } else {
        0
    }
}

/// The number of live cells among the eight that surround row `i`, column `j`.
pub open spec fn live_neighbours(g: Seq<Seq<bool>>, i: int, j: int) -> int {
    alive_count(g, i - 1, j - 1) + alive_count(g, i - 1, j) + alive_count(g, i - 1, j + 1)
        + alive_count(g, i, j - 1) + alive_count(g, i, j + 1)
        + alive_count(g, i + 1, j - 1) + alive_count(g, i + 1, j) + alive_count(g, i + 1, j + 1)
}

/// The rule: a live cell survives with two or three live neighbours, a dead
/// cell comes alive with exactly three.
pub open spec fn next_state(alive: bool, neighbours: int) -> bool {
    if alive {
        neighbours == 2 || neighbours == 3
    } else {
        neighbours == 3
    }
}

/// The next generation: every cell is decided from the grid as it was.
pub open spec fn next_generation(g: Seq<Seq<bool>>) -> Seq<Seq<bool>> {
    Seq::new(
        g.len(),
        |i: int| Seq::new(g[i].len(), |j: int| next_state(g[i][j], live_neighbours(g, i, j))),
    )
}

fn neighbour_alive(list: &[Vec<bool>], nx: i64, ny: i64) -> (r: bool)
    requires
        is_rectangular(cells(list@)),
        fits_i32(cells(list@)),
    ensures
        r == cell_alive(cells(list@), nx as int, ny as int),
{
    if nx >= 0 && nx < list.len() as i64 {
        let row = &list[nx as usize];
        assert(cells(list@)[nx as int] == row@);
        ny >= 0 && ny < list[0].len() as i64 && row[ny as usize]
    } else {
        false
    }
}

/// Counts the live cells among the eight neighbours of row `x`, column `y`.
pub fn get_number_black_around_cell(list: &[Vec<bool>], x: i32, y: i32) -> (count: i32)
    requires
        is_rectangular(cells(list@)),
        fits_i32(cells(list@)),
    ensures
        count == live_neighbours(cells(list@), x as int, y as int),
        0 <= count <= 8,
{
    let x = x as i64;
    let y = y as i64;
    let mut count: i32 = 0;
    if neighbour_alive(list, x - 1, y - 1) {
        count += 1;
    }
    if neighbour_alive(list, x - 1, y) {
        count += 1;
    }
    if neighbour_alive(list, x - 1, y + 1) {
        count += 1;
    }
    if neighbour_alive(list, x, y - 1) {
        count += 1;
    }
    if neighbour_alive(list, x, y + 1) {
        count += 1;
    }
    if neighbour_alive(list, x + 1, y - 1) {
        count += 1;
    }
    if neighbour_alive(list, x + 1, y) {
        count += 1;
    }
    if neighbour_alive(list, x + 1, y + 1) {
        count += 1;
    }
    count
}

/// Computes the next generation of the grid. Every cell is decided from the
/// grid that was passed in; a grid with no rows or no columns comes back unchanged.
pub fn game_of_life(list: Vec<Vec<bool>>) -> (new_list: Vec<Vec<bool>>)
    requires
        is_rectangular(cells(list@)),
        fits_i32(cells(list@)),
    ensures
        cells(new_list@) == next_generation(cells(list@)),
{
    let ghost g = cells(list@);
    if list.len() == 0 {
        assert(next_generation(g) =~= g);
        return list;
    }
    let column_count = list[0].len();
    if column_count == 0 {
        assert forall|i: int| 0 <= i < g.len() implies #[trigger] next_generation(g)[i] =~= g[i] by {
            assert(g[i].len() == g[0].len());
        }
        assert(next_generation(g) =~= g);
        return list;
    }
    let mut new_list: Vec<Vec<bool>> = Vec::new();
    let mut i: usize = 0;
    while i < list.len()
        invariant
            g == cells(list@),
            is_rectangular(g),
            fits_i32(g),
            column_count == g[0].len(),
            i <= g.len(),
            new_list@.len() == i,
            forall|k: int| 0 <= k < i ==> #[trigger] cells(new_list@)[k] == next_generation(g)[k],
        decreases list.len() - i,
    {
        let mut new_row: Vec<bool> = Vec::new();
        let mut j: usize = 0;
        assert(g[i as int].len() == column_count);
        assert(list@[i as int]@ == g[i as int]);
        while j < column_count
            invariant
                g == cells(list@),
                is_rectangular(g),
                fits_i32(g),
                column_count == g[0].len(),
                i < g.len(),
                list@[i as int]@ == g[i as int],
                j <= column_count,
                new_row@.len() == j,
                forall|k: int| 0 <= k < j ==> #[trigger] new_row@[k] == next_generation(g)[i as int][k],
            decreases column_count - j,
        {
            let cell = list[i][j];
            assert(cell == g[i as int][j as int]);
            let count_black_neighbor = get_number_black_around_cell(list.as_slice(), i as i32, j as i32);
            let next = if cell {
                2 <= count_black_neighbor && count_black_neighbor <= 3
            } else {
                count_black_neighbor == 3
            };
            new_row.push(next);
            j += 1;
        }
        assert(new_row@ =~= next_generation(g)[i as int]);
        let ghost done = new_list@;
        new_list.push(new_row);
        assert forall|k: int| 0 <= k <= i implies #[trigger] cells(new_list@)[k] == next_generation(g)[k] by {
            if k < i {
                assert(new_list@[k] == done[k]);
                assert(cells(done)[k] == next_generation(g)[k]);
            } else {
                assert(new_list@[k]@ == new_row@);
            }
        }
        i += 1;
    }
    assert(cells(new_list@) =~= next_generation(g));
    new_list
}

/// The whole number `n` of pixels.
pub open spec fn whole(n: u32) -> Ratio {
    Ratio { num: n as u64, den: 1 }
}

/// The two corners of one pass along a line, in the order walked: the pass
/// goes from `a` to `b` when `forward`, from `b` to `a` otherwise.
pub open spec fn pass_corner(a: (int, int), b: (int, int), forward: bool, second: bool) -> (int, int) {
    if forward == second {
        b
    } else {
        a
    }
}

/// Corner `m` of the polyline that draws the grid, on the lattice of line
/// indices: vertical line `i` and horizontal line `j` for `i, j` in `0..=n`,
/// where line `n` is the outer border. The walk starts down the left border,
/// covers every line whole, and turns only at right angles.
pub open spec fn lattice_point(n: int, m: int) -> (int, int) {
    if n == 1 {
        seq![(0int, 0int), (0, 1), (1, 1), (1, 0), (0, 0), (0, 1)][m]
    } else if n == 2 {
        seq![(0int, 0int), (0, 2), (1, 2), (1, 0), (0, 0), (2, 0), (2, 2), (0, 2), (0, 1), (2, 1)][m]
    } else if n < 1 || m < 4 {
        seq![(0int, 0int), (0, n), (1, n), (1, 0)][if n < 1 { 0 } else { m }]
    } else if n % 2 == 1 {
        if m < 7 {
            seq![(n, 0int), (n, n), (0, n)][m - 4]
        } else if m < 2 * n + 5 {
            // the inner horizontal lines, from the top down
            let t = (m - 7) / 2 + 1;
            pass_corner((0, t), (n, t), t % 2 == 1, (m - 7) % 2 == 1)
        } else if m < 2 * n + 8 {
            seq![(0int, 0int), (2, 0), (2, n)][m - (2 * n + 5)]
        } else {
            // the inner vertical lines from the third on, left to right
            let k = (m - (2 * n + 8)) / 2 + 3;
            pass_corner((k, 0), (k, n), k % 2 == 0, (m - (2 * n + 8)) % 2 == 1)
        }
    } else {
        if m < 11 {
            seq![(n, 0int), (n, n), (2, n), (2, 0), (0, 0), (3, 0), (3, n)][m - 4]
        } else if m < 2 * n + 3 {
            // the inner vertical lines from the fifth on, left to right
            let k = (m - 11) / 2 + 4;
            pass_corner((k, 0), (k, n), k % 2 == 1, (m - 11) % 2 == 1)
        } else if m == 2 * n + 3 {
            (0, n)
        } else {
            // the inner horizontal lines, from the top down
            let t = (m - (2 * n + 4)) / 2 + 1;
            pass_corner((0, t), (n, t), t % 2 == 1, (m - (2 * n + 4)) % 2 == 1)
        }
    }
}

/// Where line `i` of `n` stands, in pixels: `i` units from the origin, or at
/// the window's `edge` for the border line `n`.
pub open spec fn line_position(i: int, n: int, unit: Ratio, edge: u32) -> Ratio {
    if i < n {
        unit.spec_times(i)
    } else {
        whole(edge)
    }
}

/// The polyline that draws the grid: `4 * size_grid + 2` corners that walk
/// every grid line and the outer border whole, turning only at right angles.
pub open spec fn grid_points(size_grid: nat, unit: Ratio, window_height: u32, window_width: u32) -> Seq<Point> {
    Seq::new(
        4 * size_grid + 2,
        |m: int| {
            let c = lattice_point(size_grid as int, m);
            Point {
                x: line_position(c.0, size_grid as int, unit, window_width),
                y: line_position(c.1, size_grid as int, unit, window_height),
            }
        },
    )
}

/// The segment from corner `m` to corner `m + 1` runs along vertical line `i`
/// and spans the unit step from `j` to `j + 1` of it.
pub open spec fn covers_vertical_step(n: int, m: int, i: int, j: int) -> bool {
    let p = lattice_point(n, m);
    let q = lattice_point(n, m + 1);
    &&& p.0 == i && q.0 == i
    &&& (p.1 <= j && j + 1 <= q.1) || (q.1 <= j && j + 1 <= p.1)
}

/// The segment from corner `m` to corner `m + 1` runs along horizontal line
/// `j` and spans the unit step from `i` to `i + 1` of it.
pub open spec fn covers_horizontal_step(n: int, m: int, i: int, j: int) -> bool {
    let p = lattice_point(n, m);
    let q = lattice_point(n, m + 1);
    &&& p.1 == j && q.1 == j
    &&& (p.0 <= i && i + 1 <= q.0) || (q.0 <= i && i + 1 <= p.0)
}

/// Some segment of the polyline over `n` lines spans the step from `j` to
/// `j + 1` of vertical line `i`.
pub open spec fn vertical_step_drawn(n: int, i: int, j: int) -> bool {
    exists|m: int| 0 <= m < 4 * n + 1 && #[trigger] covers_vertical_step(n, m, i, j)
}

/// Some segment of the polyline over `n` lines spans the step from `i` to
/// `i + 1` of horizontal line `j`.
pub open spec fn horizontal_step_drawn(n: int, i: int, j: int) -> bool {
    exists|m: int| 0 <= m < 4 * n + 1 && #[trigger] covers_horizontal_step(n, m, i, j)
}

fn lattice_corner(n: u64, m: u64) -> (c: (u64, u64))
    requires
        1 <= n <= u32::MAX,
        m < 4 * n + 2,
    ensures
        c.0 as int == lattice_point(n as int, m as int).0,
        c.1 as int == lattice_point(n as int, m as int).1,
{
    if n == 1 {
        let xs: [u64; 6] = [0, 0, 1, 1, 0, 0];
        let ys: [u64; 6] = [0, 1, 1, 0, 0, 1];
        return (xs[m as usize], ys[m as usize]);
    }
    if n == 2 {
        let xs: [u64; 10] = [0, 0, 1, 1, 0, 2, 2, 0, 0, 2];
        let ys: [u64; 10] = [0, 2, 2, 0, 0, 0, 2, 2, 1, 1];
        return (xs[m as usize], ys[m as usize]);
    }
    if m < 4 {
        let xs: [u64; 4] = [0, 0, 1, 1];
        let ys: [u64; 4] = [0, n, n, 0];
        return (xs[m as usize], ys[m as usize]);
    }
    if n % 2 == 1 {
        if m < 7 {
            let xs: [u64; 3] = [n, n, 0];
            let ys: [u64; 3] = [0, n, n];
            (xs[(m - 4) as usize], ys[(m - 4) as usize])
        } else if m < 2 * n + 5 {
            let t = (m - 7) / 2 + 1;
            let second = (m - 7) % 2 == 1;
            let x = if (t % 2 == 1) == second { n } else { 0 };
            (x, t)
        } else if m < 2 * n + 8 {
            let xs: [u64; 3] = [0, 2, 2];
            let ys: [u64; 3] = [0, 0, n];
            (xs[(m - (2 * n + 5)) as usize], ys[(m - (2 * n + 5)) as usize])
        } else {
            let k = (m - (2 * n + 8)) / 2 + 3;
            let second = (m - (2 * n + 8)) % 2 == 1;
            let y = if (k % 2 == 0) == second { n } else { 0 };
            (k, y)
        }
    } else {
        if m < 11 {
            let xs: [u64; 7] = [n, n, 2, 2, 0, 3, 3];
            let ys: [u64; 7] = [0, n, n, 0, 0, 0, n];
            (xs[(m - 4) as usize], ys[(m - 4) as usize])
        } else if m < 2 * n + 3 {
            let k = (m - 11) / 2 + 4;
            let second = (m - 11) % 2 == 1;
            let y = if (k % 2 == 1) == second { n } else { 0 };
            (k, y)
        } else if m == 2 * n + 3 {
            (0, n)
        } else {
            let t = (m - (2 * n + 4)) / 2 + 1;
            let second = (m - (2 * n + 4)) % 2 == 1;
            let x = if (t % 2 == 1) == second { n } else { 0 };
            (x, t)
        }
    }
}

fn line_pixels(i: u64, n: u64, unit: Ratio, edge: u32) -> (r: Ratio)
    requires
        i <= n,
        unit.num * n <= u64::MAX,
    ensures
        r == line_position(i as int, n as int, unit, edge),
{
    if i < n {
        assert(unit.num * i <= unit.num * n) by (nonlinear_arith)
            requires
                i < n,
        ;
        unit.times(i)
    } else {
        Ratio::whole(edge as u64)
    }
}

/// The corners of the polyline that draws the grid: `4 * size_grid + 2` of
/// them, every segment vertical or horizontal, every grid line and the outer
/// border covered.
pub fn get_grid_point_list(size_grid: u32, unit_grid: Ratio, window_height: u32, window_width: u32) -> (grid_point_list: Vec<Point>)
    requires
        unit_grid.num * size_grid <= u64::MAX,
    ensures
        grid_point_list@ == grid_points(size_grid as nat, unit_grid, window_height, window_width),
        grid_point_list@.len() == 4 * size_grid + 2,
        forall|m: int| 0 <= m < 4 * size_grid + 1 ==> #[trigger] axis_aligned(grid_point_list@, m),
        size_grid >= 1 ==> forall|i: int, j: int|
            0 <= i <= size_grid && 0 <= j < size_grid ==> #[trigger] vertical_step_drawn(size_grid as int, i, j),
        size_grid >= 1 ==> forall|i: int, j: int|
            0 <= i < size_grid && 0 <= j <= size_grid ==> #[trigger] horizontal_step_drawn(size_grid as int, i, j),
{
    let n = size_grid as u64;
    let total = 4 * n + 2;
    let mut grid_point_list: Vec<Point> = Vec::new();
    let mut m: u64 = 0;
    while m < total
        invariant
            n == size_grid,
            total == 4 * n + 2,
            m <= total,
            unit_grid.num * n <= u64::MAX,
            grid_point_list@.len() == m,
            forall|k: int| 0 <= k < m ==> #[trigger] grid_point_list@[k] == grid_points(size_grid as nat, unit_grid, window_height, window_width)[k],
        decreases total - m,
    {
        let corner = if n == 0 {
            (0, 0)
        } else {
            lattice_corner(n, m)
        };
        proof {
            if n > 0 {
                lemma_lattice_in_range(n as int, m as int);
            }
        }
        let x = line_pixels(corner.0, n, unit_grid, window_width);
        let y = line_pixels(corner.1, n, unit_grid, window_height);
        grid_point_list.push(Point::new(x, y));
        m += 1;
    }
    assert(grid_point_list@ =~= grid_points(size_grid as nat, unit_grid, window_height, window_width));
    proof {
        lemma_grid_lines_drawn(size_grid as nat, unit_grid, window_height, window_width);
    }
    grid_point_list
}

/// The segment from corner `m` to corner `m + 1` is vertical or horizontal.
pub open spec fn axis_aligned(points: Seq<Point>, m: int) -> bool {
    points[m].x == points[m + 1].x || points[m].y == points[m + 1].y
}

/// Which segment covers vertical line `i` whole.
spec fn vertical_witness(n: int, i: int) -> int {
    if i == 0 {
        0
    } else if i == 1 {
        2
    } else if n == 2 {
        5
    } else if i == n {
        4
    } else if n % 2 == 1 {
        if i == 2 {
            2 * n + 6
        } else {
            2 * n + 8 + 2 * (i - 3)
        }
    } else if i == 2 {
        6
    } else if i == 3 {
        9
    } else {
        11 + 2 * (i - 4)
    }
}

/// Which segment covers the step from `i` to `i + 1` of horizontal line `j`.
spec fn horizontal_witness(n: int, i: int, j: int) -> int {
    if n == 1 {
        if j == 0 {
            3
        } else {
            1
        }
    } else if n == 2 {
        if j == 0 {
            4
        } else if j == 2 {
            6
        } else {
            8
        }
    } else if n % 2 == 1 {
        if j == 0 {
            if i >= 1 {
                3
            } else {
                2 * n + 5
            }
        } else if j == n {
            5
        } else {
            7 + 2 * (j - 1)
        }
    } else {
        if j == 0 {
            if i >= 1 {
                3
            } else {
                8
            }
        } else if j == n {
            if i >= 2 {
                5
            } else {
                2 * n + 2
            }
        } else {
            2 * n + 4 + 2 * (j - 1)
        }
    }
}

/// The polyline of `get_grid_point_list` draws the grid: it has
/// `4 * size_grid + 2` corners, each of its segments
/// is vertical or horizontal, and on the lattice of lines `0..=size_grid` (line
/// `size_grid` being the outer border) every unit step of every vertical and
/// every horizontal line lies on some segment.
pub proof fn lemma_grid_lines_drawn(size_grid: nat, unit: Ratio, window_height: u32, window_width: u32)
    ensures
        grid_points(size_grid, unit, window_height, window_width).len() == 4 * size_grid + 2,
        forall|m: int|
            0 <= m < 4 * size_grid + 1 ==> #[trigger] axis_aligned(
                grid_points(size_grid, unit, window_height, window_width),
                m,
            ),
        size_grid >= 1 ==> forall|i: int, j: int|
            0 <= i <= size_grid && 0 <= j < size_grid ==> #[trigger] vertical_step_drawn(size_grid as int, i, j),
        size_grid >= 1 ==> forall|i: int, j: int|
            0 <= i < size_grid && 0 <= j <= size_grid ==> #[trigger] horizontal_step_drawn(size_grid as int, i, j),
{
    let n = size_grid as int;
    let p = grid_points(size_grid, unit, window_height, window_width);
    assert forall|m: int| 0 <= m < 4 * size_grid + 1 implies #[trigger] axis_aligned(p, m) by {
        lemma_lattice_step_aligned(n, m);
    }
    if size_grid >= 1 {
        assert forall|i: int, j: int| 0 <= i <= size_grid && 0 <= j < size_grid implies #[trigger] vertical_step_drawn(n, i, j) by {
            lemma_vertical_witness(n, i, j);
        }
        assert forall|i: int, j: int| 0 <= i < size_grid && 0 <= j <= size_grid implies #[trigger] horizontal_step_drawn(n, i, j) by {
            lemma_horizontal_witness(n, i, j);
        }
    }
}

proof fn lemma_lattice_step_aligned(n: int, m: int)
    requires
        0 <= n,
        0 <= m < 4 * n + 1,
    ensures
        lattice_point(n, m).0 == lattice_point(n, m + 1).0 || lattice_point(n, m).1 == lattice_point(n, m + 1).1,
{
}

proof fn lemma_vertical_witness(n: int, i: int, j: int)
    requires
        1 <= n,
        0 <= i <= n,
        0 <= j < n,
    ensures
        0 <= vertical_witness(n, i) < 4 * n + 1,
        covers_vertical_step(n, vertical_witness(n, i), i, j),
{
}

proof fn lemma_horizontal_witness(n: int, i: int, j: int)
    requires
        1 <= n,
        0 <= i < n,
        0 <= j <= n,
    ensures
        0 <= horizontal_witness(n, i, j) < 4 * n + 1,
        covers_horizontal_step(n, horizontal_witness(n, i, j), i, j),
{
}

proof fn lemma_lattice_in_range(n: int, m: int)
    requires
        1 <= n,
        0 <= m < 4 * n + 2,
    ensures
        0 <= lattice_point(n, m).0 <= n,
        0 <= lattice_point(n, m).1 <= n,
{
}

/// The squares of the live cells of one row, left to right.
pub open spec fn row_rects(row: Seq<bool>, i: int, unit: Ratio) -> Seq<Rect>
    decreases row.len(),
{
    if row.len() == 0 {
        seq![]
    } else {
        let j = row.len() - 1;
        row_rects(row.drop_last(), i, unit) + if row[j] {
            seq![spec_cell_rect(j, i, unit)]
        } else {
            seq![]
        }
    }
}

/// The squares of the live cells of the grid, row by row from the top.
pub open spec fn live_rects(g: Seq<Seq<bool>>, unit: Ratio) -> Seq<Rect>
    decreases g.len(),
{
    if g.len() == 0 {
        seq![]
    } else {
        live_rects(g.drop_last(), unit) + row_rects(g.last(), g.len() - 1, unit)
    }
}

/// The number of live cells in one row.
pub open spec fn row_live_count(row: Seq<bool>) -> nat
    decreases row.len(),
{
    if row.len() == 0 {
        0
    } else {
        row_live_count(row.drop_last()) + if row.last() {
            1nat
        } else {
            0nat
        }
    }
}

/// The number of live cells in the grid: its population.
pub open spec fn live_count(g: Seq<Seq<bool>>) -> nat
    decreases g.len(),
{
    if g.len() == 0 {
        0
    } else {
        live_count(g.drop_last()) + row_live_count(g.last())
    }
}

proof fn lemma_row_rects_len(row: Seq<bool>, i: int, unit: Ratio)
    ensures
        row_rects(row, i, unit).len() == row_live_count(row),
    decreases row.len(),
{
    if row.len() > 0 {
        lemma_row_rects_len(row.drop_last(), i, unit);
    }
}

/// There is one square for each live cell: as many squares as the population.
pub proof fn lemma_live_rects_len(g: Seq<Seq<bool>>, unit: Ratio)
    ensures
        live_rects(g, unit).len() == live_count(g),
    decreases g.len(),
{
    if g.len() > 0 {
        lemma_live_rects_len(g.drop_last(), unit);
        lemma_row_rects_len(g.last(), g.len() - 1, unit);
    }
}

/// The squares to fill, one for each live cell, row by row from the top and
/// left to right within a row.
pub fn get_rect_list(list: &[Vec<bool>], unit_grid: Ratio) -> (list_rect: Vec<Rect>)
    requires
        unit_grid.num * list@.len() <= u64::MAX,
        forall|i: int| 0 <= i < list@.len() ==> unit_grid.num * (#[trigger] list@[i]@).len() <= u64::MAX,
    ensures
        list_rect@ == live_rects(cells(list@), unit_grid),
        list_rect@.len() == live_count(cells(list@)),
{
    let ghost g = cells(list@);
    let mut list_rect: Vec<Rect> = Vec::new();
    let mut i: usize = 0;
    while i < list.len()
        invariant
            g == cells(list@),
            i <= g.len(),
            unit_grid.num * list@.len() <= u64::MAX,
            forall|k: int| 0 <= k < list@.len() ==> unit_grid.num * (#[trigger] list@[k]@).len() <= u64::MAX,
            list_rect@ == live_rects(g.subrange(0, i as int), unit_grid),
        decreases list.len() - i,
    {
        let row = &list[i];
        assert(g[i as int] == row@);
        assert(unit_grid.num * i <= unit_grid.num * list@.len()) by (nonlinear_arith)
            requires i < list@.len();
        let ghost before = list_rect@;
        let mut j: usize = 0;
        while j < row.len()
            invariant
                g == cells(list@),
                i < g.len(),
                g[i as int] == row@,
                j <= row@.len(),
                unit_grid.num * i <= u64::MAX,
                unit_grid.num * row@.len() <= u64::MAX,
                before == live_rects(g.subrange(0, i as int), unit_grid),
                list_rect@ == before + row_rects(row@.subrange(0, j as int), i as int, unit_grid),
            decreases row.len() - j,
        {
            assert(row@.subrange(0, j + 1).drop_last() =~= row@.subrange(0, j as int));
            assert(unit_grid.num * j <= unit_grid.num * row@.len()) by (nonlinear_arith)
                requires j < row@.len();
            if row[j] {
                list_rect.push(cell_rect(j as u64, i as u64, unit_grid));
            }
            j += 1;
        }
        assert(row@.subrange(0, row@.len() as int) =~= row@);
        assert(g.subrange(0, i + 1).drop_last() =~= g.subrange(0, i as int));
        i += 1;
    }
    assert(g.subrange(0, g.len() as int) =~= g);
    proof {
        lemma_live_rects_len(g, unit_grid);
    }
    list_rect
}

/// The grid after `k` generations.
pub open spec fn generations(g: Seq<Seq<bool>>, k: nat) -> Seq<Seq<bool>>
    decreases k,
{
    if k == 0 {
        g
    } else {
        next_generation(generations(g, (k - 1) as nat))
    }
}

/// A still life, a grid that is its own next generation, stays unchanged
/// however many generations pass; in particular two steps give it back.
pub proof fn lemma_still_life_stays(g: Seq<Seq<bool>>, k: nat)
    requires
        next_generation(g) == g,
    ensures
        generations(g, k) == g,
        next_generation(next_generation(g)) == g,
    decreases k,
{
    if k > 0 {
        lemma_still_life_stays(g, (k - 1) as nat);
    }
}

/// A grid with no live cell stays without one: nothing is born from nothing.
pub proof fn lemma_dead_grid_stays_dead(g: Seq<Seq<bool>>)
    requires
        forall|i: int, j: int| 0 <= i < g.len() && 0 <= j < g[i].len() ==> !(#[trigger] g[i][j]),
    ensures
        next_generation(g) == g,
{
    assert forall|i: int| 0 <= i < g.len() implies #[trigger] next_generation(g)[i] =~= g[i] by {
        assert forall|j: int| 0 <= j < g[i].len() implies #[trigger] next_generation(g)[i][j] == g[i][j] by {
            assert(!cell_alive(g, i - 1, j - 1) && !cell_alive(g, i - 1, j) && !cell_alive(g, i - 1, j + 1));
            assert(!cell_alive(g, i, j - 1) && !cell_alive(g, i, j + 1));
            assert(!cell_alive(g, i + 1, j - 1) && !cell_alive(g, i + 1, j) && !cell_alive(g, i + 1, j + 1));
            assert(live_neighbours(g, i, j) == 0);
        }
    }
    assert(next_generation(g) =~= g);
}

/// The live cells of `g` are exactly the 2 by 2 block whose top-left cell is row `r`, column `c`.
pub open spec fn is_lone_block(g: Seq<Seq<bool>>, r: int, c: int) -> bool {
    &&& is_rectangular(g)
    &&& 0 <= r && r + 1 < g.len()
    &&& 0 <= c && c + 1 < g[0].len()
    &&& forall|i: int, j: int|
        0 <= i < g.len() && 0 <= j < g[i].len() ==> (#[trigger] g[i][j] <==> (r <= i <= r + 1 && c <= j <= c + 1))
}

proof fn lemma_block_cell(g: Seq<Seq<bool>>, r: int, c: int, a: int, b: int)
    requires
        is_lone_block(g, r, c),
    ensures
        cell_alive(g, a, b) <==> (r <= a <= r + 1 && c <= b <= c + 1),
{
    if 0 <= a < g.len() {
        assert(g[a].len() == g[0].len());
        if 0 <= b < g[a].len() {
            assert(g[a][b] <==> (r <= a <= r + 1 && c <= b <= c + 1));
        }
    }
}

/// A 2 by 2 block of live cells with nothing else alive is a still life, wherever
/// it stands on the grid.
pub proof fn lemma_block_is_still_life(g: Seq<Seq<bool>>, r: int, c: int)
    requires
        is_lone_block(g, r, c),
    ensures
        next_generation(g) == g,
{
    assert forall|i: int| 0 <= i < g.len() implies #[trigger] next_generation(g)[i] =~= g[i] by {
        assert forall|j: int| 0 <= j < g[i].len() implies #[trigger] next_generation(g)[i][j] == g[i][j] by {
            lemma_block_cell(g, r, c, i, j);
            lemma_block_cell(g, r, c, i - 1, j - 1);
            lemma_block_cell(g, r, c, i - 1, j);
            lemma_block_cell(g, r, c, i - 1, j + 1);
            lemma_block_cell(g, r, c, i, j - 1);
            lemma_block_cell(g, r, c, i, j + 1);
            lemma_block_cell(g, r, c, i + 1, j - 1);
            lemma_block_cell(g, r, c, i + 1, j);
            lemma_block_cell(g, r, c, i + 1, j + 1);
        }
    }
    assert(next_generation(g) =~= g);
}

/// Whether a frame at time `now` evolves the grid: the game runs, its measured
/// speed is under the cap, and the iteration count has room to grow.
pub open spec fn advances_at(v: GameView, now: i64) -> bool {
    &&& v.game_state == GameStatus::Running
    &&& v.rate_at(now).num < 10 * v.max_iteration_per_second
    &&& v.iteration < u32::MAX
}

/// One frame of the simulation at time `now_millis`: when the game runs under
/// its speed cap, the grid moves to its next generation and the iteration count
/// goes up by one. Returns whether it did.
pub fn run_step_at(game_info: &mut Game, list_color: &mut Vec<Vec<bool>>, now_millis: i64) -> (advanced: bool)
    requires
        is_rectangular(cells(old(list_color)@)),
        fits_i32(cells(old(list_color)@)),
    ensures
        advanced == advances_at(old(game_info)@, now_millis),
        advanced ==> cells(final(list_color)@) == next_generation(cells(old(list_color)@)),
        advanced ==> final(game_info)@ == (GameView { iteration: (old(game_info)@.iteration + 1) as u32, ..old(game_info)@ }),
        !advanced ==> final(list_color)@ == old(list_color)@,
        !advanced ==> final(game_info)@ == old(game_info)@,
{
    if game_info.get_game_state() != GameStatus::Running {
        return false;
    }
    let rate = game_info.iteration_per_second_at(now_millis);
    if rate.num >= 10 * (game_info.get_max_iteration_per_second() as u64) {
        return false;
    }
    let iteration = game_info.get_iteration();
    if iteration == u32::MAX {
        return false;
    }
    let mut grid: Vec<Vec<bool>> = Vec::new();
    std::mem::swap(&mut grid, list_color);
    *list_color = game_of_life(grid);
    game_info.set_iteration(iteration + 1);
    true
}

/// One frame of the simulation, timed by the clock now: see `run_step_at`.
pub fn run_step(game_info: &mut Game, list_color: &mut Vec<Vec<bool>>) -> (advanced: bool)
    requires
        is_rectangular(cells(old(list_color)@)),
        fits_i32(cells(old(list_color)@)),
    ensures
        exists|now: i64| {
            &&& advanced == advances_at(old(game_info)@, now)
            &&& advanced ==> cells(final(list_color)@) == next_generation(cells(old(list_color)@))
            &&& advanced ==> final(game_info)@ == (GameView { iteration: (old(game_info)@.iteration + 1) as u32, ..old(game_info)@ })
            &&& !advanced ==> final(list_color)@ == old(list_color)@
            &&& !advanced ==> final(game_info)@ == old(game_info)@
        },
{
    let now = crate::game::now_millis();
    run_step_at(game_info, list_color, now)
}

} // verus!
