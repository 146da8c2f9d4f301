use rust_of_life::game::{Game, GameStatus};
use rust_of_life::geometry::{Point, Ratio, Rect};
use rust_of_life::utils::{
    game_of_life, get_grid_point_list, get_number_black_around_cell, get_rect_list, run_step,
    run_step_at,
};

fn pixels(r: Ratio) -> f32 {
    r.num as f32 / r.den as f32
}

fn point(p: Point) -> (f32, f32) {
    (pixels(p.x), pixels(p.y))
}

fn rect(r: Rect) -> (f32, f32, f32, f32) {
    (pixels(r.x), pixels(r.y), pixels(r.w), pixels(r.h))
}

fn grid(rows: &[&str]) -> Vec<Vec<bool>> {
    rows.iter().map(|r| r.chars().map(|c| c == '#').collect()).collect()
}

#[test]
fn test_get_grid_point_list() {
    let points = get_grid_point_list(4, Ratio::whole(10), 100, 100);
    assert_eq!(points.len(), 18);
    assert_eq!(point(points[0]), (0.0, 0.0));
    assert_eq!(point(points[1]), (0.0, 100.0));
    assert_eq!(point(points[2]), (10.0, 100.0));
    assert_eq!(point(points[3]), (10.0, 0.0));
}

#[test]
fn grid_point_list_whole_polyline() {
    let points: Vec<(f32, f32)> = get_grid_point_list(2, Ratio { num: 50, den: 2 }, 60, 50)
        .into_iter()
        .map(point)
        .collect();
    assert_eq!(
        points,
        vec![
            (0.0, 0.0),
            (0.0, 60.0),
            (25.0, 60.0),
            (25.0, 0.0),
            (0.0, 0.0),
            (50.0, 0.0),
            (50.0, 60.0),
            (0.0, 60.0),
            (0.0, 25.0),
            (50.0, 25.0),
        ]
    );
}

#[test]
fn grid_point_list_of_an_empty_grid() {
    let points = get_grid_point_list(0, Ratio::whole(10), 100, 80);
    assert_eq!(points.len(), 2);
    assert_eq!(point(points[0]), (80.0, 100.0));
    assert_eq!(point(points[1]), (80.0, 100.0));
}

/// Whether the unit step from `(x0, y0)` to `(x1, y1)` lies on a segment of the polyline.
fn step_drawn(points: &[(f32, f32)], from: (f32, f32), to: (f32, f32)) -> bool {
    points.windows(2).any(|s| {
        let (a, b) = (s[0], s[1]);
        if from.0 == to.0 {
            a.0 == from.0
                && b.0 == from.0
                && a.1.min(b.1) <= from.1.min(to.1)
                && from.1.max(to.1) <= a.1.max(b.1)
        } else {
            a.1 == from.1
                && b.1 == from.1
                && a.0.min(b.0) <= from.0.min(to.0)
                && from.0.max(to.0) <= a.0.max(b.0)
        }
    })
}

#[test]
fn grid_point_list_draws_every_line_at_right_angles() {
    for n in 1..13u32 {
        let side = 10 * n;
        let points: Vec<(f32, f32)> = get_grid_point_list(n, Ratio::whole(10), side, side)
            .into_iter()
            .map(point)
            .collect();
        assert_eq!(points.len(), 4 * n as usize + 2);
        assert_eq!(&points[..2], &[(0.0, 0.0), (0.0, side as f32)]);
        for s in points.windows(2) {
            assert!(s[0].0 == s[1].0 || s[0].1 == s[1].1, "size {}: {:?}", n, s);
        }
        for k in 0..=n {
            for j in 0..n {
                let (a, b, c) = ((10 * k) as f32, (10 * j) as f32, (10 * j + 10) as f32);
                assert!(step_drawn(&points, (a, b), (a, c)), "size {}: vertical {} at {}", n, k, j);
                assert!(step_drawn(&points, (b, a), (c, a)), "size {}: horizontal {} at {}", n, k, j);
            }
        }
    }
}

#[test]
fn grid_point_list_border_follows_the_window() {
    let points: Vec<(f32, f32)> = get_grid_point_list(3, Ratio::whole(10), 70, 50)
        .into_iter()
        .map(point)
        .collect();
    assert_eq!(points.len(), 14);
    assert!(step_drawn(&points, (50.0, 0.0), (50.0, 70.0)));
    assert!(step_drawn(&points, (0.0, 70.0), (50.0, 70.0)));
    assert!(step_drawn(&points, (20.0, 0.0), (20.0, 70.0)));
    assert!(step_drawn(&points, (0.0, 20.0), (50.0, 20.0)));
}

#[test]
fn test_game_of_life() {
    let list = vec![
        vec![false, true, false],
        vec![true, true, false],
        vec![false, false, false],
    ];
    let expected = vec![
        vec![true, true, false],
        vec![true, true, false],
        vec![false, false, false],
    ];
    assert_eq!(game_of_life(list), expected);
}

#[test]
fn test_get_rect_list() {
    let list = vec![
        vec![false, true, false],
        vec![true, true, false],
        vec![false, false, false],
    ];
    let rects = get_rect_list(&list, Ratio::whole(10));
    assert_eq!(rects.len(), 3);
    assert_eq!(rect(rects[0]), (10.0, 0.0, 10.0, 10.0));
    assert_eq!(rect(rects[1]), (0.0, 10.0, 10.0, 10.0));
    assert_eq!(rect(rects[2]), (10.0, 10.0, 10.0, 10.0));
}

#[test]
fn rect_list_of_an_empty_grid() {
    let list = grid(&["...", "..."]);
    assert!(get_rect_list(&list, Ratio::whole(10)).is_empty());
    let none: Vec<Vec<bool>> = Vec::new();
    assert!(get_rect_list(&none, Ratio::whole(10)).is_empty());
}

#[test]
fn neighbour_counts() {
    let list = grid(&[".#.", "##.", "..."]);
    assert_eq!(get_number_black_around_cell(&list, 1, 1), 2);
    assert_eq!(get_number_black_around_cell(&list, 0, 0), 3);
    assert_eq!(get_number_black_around_cell(&list, 2, 2), 1);
    assert_eq!(get_number_black_around_cell(&list, 0, 2), 2);
    let full = grid(&["###", "###", "###"]);
    assert_eq!(get_number_black_around_cell(&full, 1, 1), 8);
    assert_eq!(get_number_black_around_cell(&full, 0, 0), 3);
    assert_eq!(get_number_black_around_cell(&full, 5, 5), 0);
    assert_eq!(get_number_black_around_cell(&full, -1, -1), 1);
}

#[test]
fn block_is_a_still_life() {
    let block = grid(&["....", ".##.", ".##.", "...."]);
    let once = game_of_life(block.clone());
    assert_eq!(once, block);
    assert_eq!(game_of_life(once), block);
}

#[test]
fn block_in_a_corner_is_a_still_life() {
    let block = grid(&["##.", "##.", "..."]);
    assert_eq!(game_of_life(game_of_life(block.clone())), block);
}

#[test]
fn dead_grid_stays_dead() {
    for n in 0..6 {
        let dead = vec![vec![false; n]; n];
        assert_eq!(game_of_life(dead.clone()), dead);
    }
}

#[test]
fn empty_grids_come_back_unchanged() {
    let none: Vec<Vec<bool>> = Vec::new();
    assert_eq!(game_of_life(none), Vec::<Vec<bool>>::new());
    let no_columns: Vec<Vec<bool>> = vec![Vec::new(), Vec::new()];
    assert_eq!(game_of_life(no_columns.clone()), no_columns);
}

#[test]
fn blinker_oscillates() {
    let horizontal = grid(&[".....", ".....", ".###.", ".....", "....."]);
    let vertical = grid(&[".....", "..#..", "..#..", "..#..", "....."]);
    assert_eq!(game_of_life(horizontal.clone()), vertical);
    assert_eq!(game_of_life(vertical), horizontal);
}

#[test]
fn rectangular_grid_evolves() {
    let list = grid(&["###.", "...."]);
    assert_eq!(game_of_life(list), grid(&[".#..", ".#.."]));
}

#[test]
fn step_advances_only_while_running() {
    let mut game = Game::new();
    let mut list = grid(&["###", "...", "..."]);
    assert!(!run_step_at(&mut game, &mut list, 0));
    assert_eq!(list, grid(&["###", "...", "..."]));
    assert_eq!(game.get_iteration(), 0);

    game.set_game_state(GameStatus::Running);
    game.set_start_time(0);
    assert!(run_step_at(&mut game, &mut list, 500));
    assert_eq!(list, grid(&[".#.", ".#.", "..."]));
    assert_eq!(game.get_iteration(), 1);

    game.set_game_state(GameStatus::Exit);
    assert!(!run_step_at(&mut game, &mut list, 600));
    assert_eq!(game.get_iteration(), 1);
}

#[test]
fn step_respects_the_speed_cap() {
    let mut game = Game::new();
    let mut list = grid(&["...", "...", "..."]);
    game.set_game_state(GameStatus::Running);
    game.set_start_time(0);
    game.set_start_time_iteration(0);
    game.set_iteration(20);
    // 20 iterations in 2 seconds is 10 per second: at the cap of 10
    assert!(!run_step_at(&mut game, &mut list, 2_000));
    assert_eq!(game.get_iteration(), 20);
    // 20 iterations in 3 seconds is 6.6 per second: under the cap
    assert!(run_step_at(&mut game, &mut list, 3_000));
    assert_eq!(game.get_iteration(), 21);
}

#[test]
fn step_by_the_clock() {
    let mut game = Game::new();
    let mut list = grid(&["###", "...", "..."]);
    assert!(!run_step(&mut game, &mut list));
    game.run();
    assert!(run_step(&mut game, &mut list));
    assert_eq!(list, grid(&[".#.", ".#.", "..."]));
    assert_eq!(game.get_iteration(), 1);
}

#[test]
fn rect_count_is_the_population() {
    let list = grid(&["#.#.#", ".....", "##..#", "....#"]);
    let population = list.iter().flatten().filter(|c| **c).count();
    assert_eq!(population, 7);
    assert_eq!(get_rect_list(&list, Ratio::whole(4)).len(), population);
}
