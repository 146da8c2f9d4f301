use rust_of_life::events::{
    calculate_cell_position, check_cell_in_map, handle_event, handle_event_at, InputEvent,
};
use rust_of_life::game::{Game, GameStatus};

fn motion(x: i32, y: i32, left: bool, right: bool) -> InputEvent {
    InputEvent::MouseMotion { x, y, left, right }
}

#[test]
fn test_handle_event_key_space() {
    let mut list_color = vec![vec![false; 10]; 10];
    let mut game_info = Game::new();
    handle_event(InputEvent::TogglePause, &mut list_color, &mut game_info);
    assert_eq!(game_info.get_game_state(), GameStatus::Running);
    handle_event(InputEvent::TogglePause, &mut list_color, &mut game_info);
    assert_eq!(game_info.get_game_state(), GameStatus::Pause);
}

#[test]
fn test_handle_event_mouse_button_down() {
    let mut list_color = vec![vec![false; 10]; 10];
    let mut game_info = Game::new();
    handle_event(InputEvent::MouseButtonDown { x: 0, y: 0 }, &mut list_color, &mut game_info);
    assert!(list_color[0][0]);
    handle_event(InputEvent::MouseButtonDown { x: 0, y: 0 }, &mut list_color, &mut game_info);
    assert!(!list_color[0][0]);
    handle_event(
        InputEvent::MouseButtonDown { x: 40000, y: 40000 },
        &mut list_color,
        &mut game_info,
    );
    assert_eq!(list_color, vec![vec![false; 10]; 10]);
}

#[test]
fn test_handle_event_mouse_motion() {
    let mut list_color = vec![vec![false; 10]; 10];
    let mut game_info = Game::new();
    // left button held
    handle_event(motion(0, 0, true, false), &mut list_color, &mut game_info);
    assert!(list_color[0][0]);
    // middle button only
    handle_event(motion(0, 0, false, false), &mut list_color, &mut game_info);
    assert!(list_color[0][0]);
    // left and middle buttons
    handle_event(motion(0, 0, true, false), &mut list_color, &mut game_info);
    assert!(list_color[0][0]);
    // right button held
    handle_event(motion(0, 0, false, true), &mut list_color, &mut game_info);
    assert!(!list_color[0][0]);
}

#[test]
fn test_handle_event_quit() {
    let mut list_color = vec![vec![false; 10]; 10];
    let mut game_info = Game::new();
    handle_event(InputEvent::Quit, &mut list_color, &mut game_info);
    assert_eq!(game_info.get_game_state(), GameStatus::Exit);
}

#[test]
fn space_leaves_an_exiting_game_alone() {
    let mut list_color = vec![vec![false; 10]; 10];
    let mut game_info = Game::new();
    handle_event(InputEvent::Quit, &mut list_color, &mut game_info);
    handle_event(InputEvent::TogglePause, &mut list_color, &mut game_info);
    assert_eq!(game_info.get_game_state(), GameStatus::Exit);
}

#[test]
fn reset_works_after_exit() {
    let mut list_color = vec![vec![false; 10]; 10];
    let mut game_info = Game::new();
    handle_event(motion(15, 25, true, false), &mut list_color, &mut game_info);
    game_info.set_iteration(9);
    handle_event(InputEvent::Quit, &mut list_color, &mut game_info);
    handle_event(InputEvent::Reset, &mut list_color, &mut game_info);
    assert_eq!(game_info.get_game_state(), GameStatus::Pause);
    assert_eq!(game_info.get_iteration(), 0);
    assert_eq!(list_color, vec![vec![false; 10]; 10]);
}

#[test]
fn events_at_a_given_time() {
    let mut list_color = vec![vec![false; 10]; 10];
    let mut game_info = Game::new();
    game_info.set_iteration(5);
    handle_event_at(InputEvent::TogglePause, &mut list_color, &mut game_info, 123_456);
    assert_eq!(game_info.get_game_state(), GameStatus::Running);
    assert_eq!(game_info.get_start_time(), 123_456);
    assert_eq!(game_info.get_start_time_iteration(), 5);
    handle_event_at(InputEvent::TogglePause, &mut list_color, &mut game_info, 200_000);
    assert_eq!(game_info.get_game_state(), GameStatus::Pause);
    assert_eq!(game_info.get_start_time(), 123_456);
    handle_event_at(InputEvent::Reset, &mut list_color, &mut game_info, 300_000);
    assert_eq!(game_info.get_start_time(), 300_000);
    assert_eq!(game_info.get_iteration(), 0);
}

#[test]
fn reset_clears_the_grid_and_the_count() {
    let mut list_color = vec![vec![false; 10]; 10];
    let mut game_info = Game::new();
    handle_event(motion(15, 25, true, false), &mut list_color, &mut game_info);
    handle_event(InputEvent::MouseButtonDown { x: 95, y: 5 }, &mut list_color, &mut game_info);
    handle_event(InputEvent::TogglePause, &mut list_color, &mut game_info);
    game_info.set_iteration(7);
    handle_event(InputEvent::Reset, &mut list_color, &mut game_info);
    assert_eq!(list_color, vec![vec![false; 10]; 10]);
    assert_eq!(game_info.get_iteration(), 0);
    assert_eq!(game_info.get_start_time_iteration(), 0);
    assert_eq!(game_info.get_game_state(), GameStatus::Pause);
}

#[test]
fn painting_hits_the_cell_under_the_pointer() {
    let mut list_color = vec![vec![false; 10]; 10];
    let mut game_info = Game::new();
    // cells are 10 pixels wide: pixel (15, 25) is column 1, row 2
    handle_event(motion(15, 25, true, false), &mut list_color, &mut game_info);
    assert!(list_color[2][1]);
    handle_event(InputEvent::MouseButtonDown { x: 95, y: 5 }, &mut list_color, &mut game_info);
    assert!(list_color[0][9]);
    // column 10 is off this grid of 10 columns
    handle_event(InputEvent::MouseButtonDown { x: 105, y: 5 }, &mut list_color, &mut game_info);
    assert_eq!(list_color.iter().flatten().filter(|c| **c).count(), 2);
}

#[test]
fn cell_position_truncates_toward_zero() {
    let game_info = Game::new();
    assert_eq!(calculate_cell_position(0, 0, &game_info), (0, 0));
    assert_eq!(calculate_cell_position(19, 20, &game_info), (1, 2));
    assert_eq!(calculate_cell_position(-5, -15, &game_info), (0, -1));
    assert_eq!(calculate_cell_position(40000, 999, &game_info), (4000, 99));
}

#[test]
fn cell_position_with_fractional_cells() {
    let mut game_info = Game::new();
    game_info.set_window_width(999);
    // cells are 9.99 pixels wide
    assert_eq!(calculate_cell_position(10, 998, &game_info), (1, 99));
    assert_eq!(calculate_cell_position(9, 999, &game_info), (0, 100));
}

#[test]
fn cells_in_and_out_of_the_map() {
    let game_info = Game::new();
    assert!(check_cell_in_map(0, 0, &game_info));
    assert!(check_cell_in_map(99, 99, &game_info));
    assert!(!check_cell_in_map(100, 0, &game_info));
    assert!(!check_cell_in_map(0, 100, &game_info));
    assert!(!check_cell_in_map(-1, 5, &game_info));
    assert!(!check_cell_in_map(5, -1, &game_info));
}

#[test]
fn cells_of_no_width_send_pixels_to_the_far_edge() {
    let mut game_info = Game::new();
    game_info.set_window_height(0);
    assert_eq!(game_info.get_window_min_length(), 0);
    assert_eq!(calculate_cell_position(5, -5, &game_info), (i32::MAX, i32::MIN));
    assert_eq!(calculate_cell_position(0, 0, &game_info), (0, 0));
    let mut list_color = vec![vec![false; 10]; 10];
    handle_event(InputEvent::MouseButtonDown { x: 5, y: 5 }, &mut list_color, &mut game_info);
    assert_eq!(list_color, vec![vec![false; 10]; 10]);
}
