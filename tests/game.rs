use game_of_life::game::{GameState, Key, PointerButton};
use game_of_life::screen::{
    grid_pos, pos_from_screen_coords, pos_to_rect, MILLIS_PER_TICK, SCREEN_HEIGHT, SCREEN_WIDTH,
};

#[test]
fn configuration() {
    assert_eq!(MILLIS_PER_TICK, 166);
    assert_eq!(SCREEN_WIDTH, 800);
    assert_eq!(SCREEN_HEIGHT, 600);
}

#[test]
fn screen_to_grid_mapping() {
    assert_eq!(pos_from_screen_coords(0, 0), (0, 0));
    assert_eq!(pos_from_screen_coords(24, 49), (0, 1));
    assert_eq!(pos_from_screen_coords(25, 50), (1, 2));
    assert_eq!(pos_from_screen_coords(799, 599), (31, 23));
    assert_eq!(grid_pos(130, 260), Some((5, 10)));
    assert_eq!(grid_pos(-1, 10), None);
    assert_eq!(grid_pos(10, -1), None);
}

#[test]
fn cell_rectangles() {
    assert_eq!(pos_to_rect(0, 0), (0, 0, 25, 25));
    assert_eq!(pos_to_rect(3, 7), (75, 175, 25, 25));
}

#[test]
fn new_game_state() {
    let s = GameState::new(42);
    assert_eq!(s.last_tick, 42);
    assert!(!s.paused);
    assert!(!s.focused);
    assert_eq!(s.hover_pos, None);
    assert!(!s.board.cell(0, 0));
}

#[test]
fn paused_game_never_advances() {
    let mut s = GameState::new(0);
    s.pointer_move(260, 260, true, false);
    s.key_down(Key::Space);
    assert!(s.paused);
    for i in 1..50u64 {
        assert!(!s.update(i * 1000, 0, 0));
        assert!(s.board.cell(10, 10));
        assert_eq!(s.last_tick, 0);
    }
    s.toggle_pause();
    assert!(s.update(50_000, 0, 0));
    assert!(!s.board.cell(10, 10));
}

#[test]
fn tick_gate() {
    let mut s = GameState::new(1000);
    s.pointer_move(260, 260, true, false);
    assert!(!s.update(1000 + MILLIS_PER_TICK - 1, 0, 0));
    assert!(s.board.cell(10, 10));
    assert_eq!(s.last_tick, 1000);
    assert!(s.update(1000 + MILLIS_PER_TICK, 0, 0));
    assert!(!s.board.cell(10, 10));
    assert_eq!(s.last_tick, 1000 + MILLIS_PER_TICK);
    assert!(!s.update(1000 + MILLIS_PER_TICK + 1, 0, 0));
}

#[test]
fn clock_going_back_does_not_advance() {
    let mut s = GameState::new(10_000);
    assert!(!s.update(5, 0, 0));
    assert_eq!(s.last_tick, 10_000);
}

#[test]
fn hover_follows_pointer_while_focused() {
    let mut s = GameState::new(0);
    s.update(1, 130, 60);
    assert_eq!(s.hover_pos, None);
    s.set_focus(true);
    s.update(2, 130, 60);
    assert_eq!(s.hover_pos, Some((5, 2)));
    s.update(3, -4, 60);
    assert_eq!(s.hover_pos, None);
}

#[test]
fn losing_focus_clears_hover() {
    let mut s = GameState::new(0);
    s.set_focus(true);
    s.update(1, 130, 60);
    assert_eq!(s.hover_pos, Some((5, 2)));
    s.pointer_move(300, 300, false, false);
    s.set_focus(false);
    assert_eq!(s.hover_pos, None);
    s.update(2, 300, 300);
    assert_eq!(s.hover_pos, None);
    s.focused = false;
    s.hover_pos = Some((1, 1));
    s.update(3, 300, 300);
    assert_eq!(s.hover_pos, None);
}

#[test]
fn left_wins_over_right() {
    let mut s = GameState::new(0);
    s.pointer_move(55, 80, true, true);
    assert!(s.board.cell(2, 3));
}

#[test]
fn right_button_kills_and_hover_edits_nothing() {
    let mut s = GameState::new(0);
    s.pointer_button(PointerButton::Left, 55, 80);
    assert!(s.board.cell(2, 3));
    s.pointer_move(55, 80, false, false);
    assert!(s.board.cell(2, 3));
    s.pointer_button(PointerButton::Other, 55, 80);
    assert!(s.board.cell(2, 3));
    s.pointer_button(PointerButton::Right, 55, 80);
    assert!(!s.board.cell(2, 3));
}

#[test]
fn edits_off_the_grid_are_ignored() {
    let mut s = GameState::new(0);
    s.handle_click(true, false, -3, 10);
    s.handle_click(true, false, 800, 10);
    s.handle_click(true, false, 10, 600);
    for x in 0..32 {
        for y in 0..24 {
            assert!(!s.board.cell(x, y));
        }
    }
    s.handle_click(true, false, 799, 599);
    assert!(s.board.cell(31, 23));
}

#[test]
fn keys() {
    let mut s = GameState::new(0);
    assert!(!s.key_down(Key::Other));
    assert!(!s.paused);
    assert!(!s.key_down(Key::Space));
    assert!(s.paused);
    assert!(s.key_down(Key::Escape));
    assert!(s.paused);
    assert!(!s.key_down(Key::Space));
    assert!(!s.paused);
}
