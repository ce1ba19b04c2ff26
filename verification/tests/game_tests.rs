use tictactoe::board::PlayerId;
use tictactoe::game::{Action, Event, Game, Message};
use tictactoe::layout::{CellRect, FullscreenMode};

/// Cells of 100 pixels separated by 10-pixel borders, starting at (10, 10).
fn cells() -> [CellRect; 9] {
    let mut c = [CellRect::new(0, 0, 0, 0); 9];
    for i in 0..3 {
        for j in 0..3 {
            c[i * 3 + j] = CellRect::new(10 + 110 * j as i32, 10 + 110 * i as i32, 100, 100);
        }
    }
    c
}

/// The centre of cell `i`.
fn centre(i: usize) -> (i32, i32) {
    let c = cells()[i];
    (c.x + c.w / 2, c.y + c.h / 2)
}

/// One frame in which cell `i` is clicked, followed by the update.
fn play(g: &mut Game, i: usize) {
    let (x, y) = centre(i);
    assert_eq!(g.handle_event(Event::LeftClick { x, y }, &cells()), Action::Continue);
    g.update();
}

#[test]
fn a_new_game_waits_for_player_one() {
    let g = Game::new();
    assert_eq!(g.current_id(), PlayerId::Player1);
    assert_eq!(g.message, Message::FirstTurn);
    assert_eq!(g.message.text(), "Player 1, it's your turn !");
    assert!(!g.game_over);
    assert!(!g.display_collision_boxes && !g.display_drawing_boxes);
}

#[test]
fn turns_alternate_after_each_move() {
    let mut g = Game::new();
    play(&mut g, 4);
    assert_eq!(g.grid.grid[4], Some(PlayerId::Player1));
    assert_eq!(g.current_id(), PlayerId::Player2);
    assert_eq!(g.message, Message::Turn(PlayerId::Player2));
    assert_eq!(g.message.text(), "Player 2, it's you're turn !");
    assert!(!g.players[0].played);
    play(&mut g, 0);
    assert_eq!(g.grid.grid[0], Some(PlayerId::Player2));
    assert_eq!(g.current_id(), PlayerId::Player1);
    assert_eq!(g.message.text(), "Player 1, it's you're turn !");
}

#[test]
fn an_update_without_a_move_changes_nothing() {
    let mut g = Game::new();
    g.update();
    assert_eq!(g.current_id(), PlayerId::Player1);
    assert_eq!(g.message, Message::FirstTurn);
}

#[test]
fn a_taken_cell_is_refused() {
    let mut g = Game::new();
    play(&mut g, 4);
    let (x, y) = centre(4);
    g.handle_event(Event::LeftClick { x, y }, &cells());
    assert_eq!(g.grid.grid[4], Some(PlayerId::Player1));
    assert_eq!(g.message, Message::CellUsed);
    assert_eq!(g.message.text(), "Cell already used !");
    assert!(!g.players[1].played);
    g.update();
    assert_eq!(g.current_id(), PlayerId::Player2);
}

#[test]
fn a_click_outside_every_cell_does_nothing() {
    let mut g = Game::new();
    // In the border between cells 0 and 1, and outside the board.
    g.click(&cells(), 115, 50);
    g.click(&cells(), 500, 500);
    g.click(&cells(), -5, 50);
    assert!(g.grid.grid.iter().all(|c| c.is_none()));
    assert!(!g.players[0].played);
}

#[test]
fn cell_borders_belong_to_the_cell() {
    let c = CellRect::new(10, 20, 100, 50);
    assert!(c.contains(10, 20));
    assert!(c.contains(110, 70));
    assert!(c.contains(60, 45));
    assert!(!c.contains(9, 20));
    assert!(!c.contains(111, 20));
    assert!(!c.contains(10, 71));
    assert!(!c.contains(10, 19));
}

#[test]
fn a_row_wins_and_ends_the_game() {
    let mut g = Game::new();
    for i in [0, 3, 1, 4, 2] {
        play(&mut g, i);
    }
    assert!(g.game_over);
    assert_eq!(g.message, Message::Won(PlayerId::Player1));
    assert_eq!(g.message.text(), "Player 1 has won !");
    assert_eq!(g.current_id(), PlayerId::Player1);
    // Clicks after the end change nothing.
    let before = g.grid.grid;
    play(&mut g, 8);
    assert_eq!(g.grid.grid, before);
    assert_eq!(g.message, Message::Won(PlayerId::Player1));
    assert!(g.game_over);
}

#[test]
fn player_two_can_win_on_a_diagonal() {
    let mut g = Game::new();
    for i in [0, 2, 1, 4, 8, 6] {
        play(&mut g, i);
    }
    assert!(g.game_over);
    assert_eq!(g.message, Message::Won(PlayerId::Player2));
    assert_eq!(g.message.text(), "Player 2 has won !");
}

#[test]
fn a_full_board_without_line_is_a_draw() {
    let mut g = Game::new();
    // X O X / X O O / O X X
    for i in [0, 1, 2, 4, 3, 5, 7, 6, 8] {
        play(&mut g, i);
    }
    assert!(g.grid.is_full());
    assert!(g.game_over);
    assert_eq!(g.message, Message::Draw);
    assert_eq!(g.message.text(), "Draw !");
}

#[test]
fn restart_gives_a_fresh_game() {
    let mut g = Game::new();
    for i in [0, 3, 1, 4, 2] {
        play(&mut g, i);
    }
    g.handle_event(Event::ToggleCollisionBoxes, &cells());
    assert_eq!(g.handle_event(Event::Restart, &cells()), Action::Continue);
    assert!(g.grid.grid.iter().all(|c| c.is_none()));
    assert!(!g.game_over);
    assert_eq!(g.current_id(), PlayerId::Player1);
    assert_eq!(g.message, Message::FirstTurn);
    assert!(g.display_collision_boxes);
    play(&mut g, 4);
    assert_eq!(g.grid.grid[4], Some(PlayerId::Player1));
}

#[test]
fn restart_keeps_player_two_flag() {
    // Player 2 wins: its `played` flag stays set, and the restart key only
    // clears player 1's flag. After player 1's next move, the turn passes to
    // player 2 and, at the following update, straight back to player 1.
    let mut g = Game::new();
    for i in [0, 3, 1, 4, 8, 5] {
        play(&mut g, i);
    }
    assert_eq!(g.message, Message::Won(PlayerId::Player2));
    assert!(g.players[1].played);
    g.handle_event(Event::Restart, &cells());
    assert!(g.players[1].played);
    play(&mut g, 4);
    assert_eq!(g.current_id(), PlayerId::Player2);
    g.update();
    assert_eq!(g.current_id(), PlayerId::Player1);
    assert_eq!(g.message, Message::Turn(PlayerId::Player1));
}

#[test]
fn debug_displays_toggle() {
    let mut g = Game::new();
    g.handle_event(Event::ToggleCollisionBoxes, &cells());
    assert!(g.display_collision_boxes && !g.display_drawing_boxes);
    g.handle_event(Event::ToggleDrawingBoxes, &cells());
    assert!(g.display_collision_boxes && g.display_drawing_boxes);
    g.handle_event(Event::ToggleCollisionBoxes, &cells());
    g.handle_event(Event::ToggleDrawingBoxes, &cells());
    assert!(!g.display_collision_boxes && !g.display_drawing_boxes);
}

#[test]
fn window_events_ask_the_window() {
    let mut g = Game::new();
    assert_eq!(g.handle_event(Event::Quit, &cells()), Action::Quit);
    assert_eq!(g.handle_event(Event::ToggleFullscreen, &cells()), Action::ToggleFullscreen);
    assert_eq!(g.message, Message::FirstTurn);
}

#[test]
fn fullscreen_key_switches_mode() {
    assert_eq!(FullscreenMode::Off.toggled(), FullscreenMode::Desktop);
    assert_eq!(FullscreenMode::Desktop.toggled(), FullscreenMode::Off);
    assert_eq!(FullscreenMode::True.toggled(), FullscreenMode::Off);
}

#[test]
fn overlapping_click_takes_every_free_cell_hit() {
    // Where clickable areas overlap, one click takes each free cell it hits.
    let mut c = cells();
    c[1] = c[0];
    let mut g = Game::new();
    g.click(&c, 50, 50);
    assert_eq!(g.grid.grid[0], Some(PlayerId::Player1));
    assert_eq!(g.grid.grid[1], Some(PlayerId::Player1));
    assert!(g.players[0].played);
}
