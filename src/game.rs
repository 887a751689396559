//! The interaction state around a board: pausing, focus, hover and the tick
//! gate that decides when the board advances.

use vstd::prelude::*;
use crate::board::{Board, in_grid, next_alive};
use crate::screen::{
    grid_pos, pos_from_screen_coords, screen_to_grid, GRID_HEIGHT, GRID_WIDTH, MILLIS_PER_TICK,
};

verus! {

/// A key press, as far as the game tells keys apart.
pub enum Key {
    Escape,
    Space,
    Other,
}

/// A pointer button, as far as the game tells buttons apart.
pub enum PointerButton {
    Left,
    Right,
    Other,
}

/// Whether a call of `update` at time `now` advances the board.
pub open spec fn tick_due(paused: bool, last_tick: u64, now: u64) -> bool {
    !paused && now as int - last_tick as int >= MILLIS_PER_TICK as int
}

/// The grid cell that an edit at screen position `(x, y)` targets, if that
/// position lies on the grid.
pub open spec fn edit_target(x: int, y: int) -> Option<(int, int)> {
    let p = screen_to_grid(x, y);
    if x >= 0 && y >= 0 && in_grid(p.0, p.1) {
        Some(p)
    } else {
        None
    }
}

/// The game: a board and the state that governs how it is edited and
/// advanced.
pub struct GameState {
    pub board: Board,
    /// Time of the last generation, in milliseconds.
    pub last_tick: u64,
    pub paused: bool,
    pub focused: bool,
    /// Grid cell under the pointer while the window has focus.
    pub hover_pos: Option<(usize, usize)>,
}

impl GameState {
    pub open spec fn wf(&self) -> bool {
        self.board.wf()
    }

    /// A running, unfocused game on an empty board, whose last tick is `now`.
    pub fn new(now: u64) -> (r: GameState)
        ensures
            r.wf(),
            forall|x: int, y: int| !r.board.alive(x, y),
            r.last_tick == now,
            !r.paused,
            !r.focused,
            r.hover_pos is None,
    {
        GameState { board: Board::new(), last_tick: now, paused: false, focused: false, hover_pos: None }
    }

    /// Applies an edit at screen position `(x, y)`: with the left button down
    /// the cell there becomes alive, else with the right button down it
    /// becomes dead; a position off the grid edits nothing.
    pub fn handle_click(&mut self, left_down: bool, right_down: bool, x: i32, y: i32)
        requires
            old(self).wf(),
        ensures
            final(self).wf(),
            final(self).last_tick == old(self).last_tick,
            final(self).paused == old(self).paused,
            final(self).focused == old(self).focused,
            final(self).hover_pos == old(self).hover_pos,
            forall|a: int, b: int|
                #![auto]
                final(self).board.alive(a, b) == if (left_down || right_down) && edit_target(
                    x as int,
                    y as int,
                ) == Some((a, b)) {
                    left_down
                } else {
                    old(self).board.alive(a, b)
                },
    {
        if (left_down || right_down) && x >= 0 && y >= 0 {
            let (cx, cy) = pos_from_screen_coords(x, y);
            if cx < GRID_WIDTH && cy < GRID_HEIGHT {
                self.board.set_cell(cx, cy, left_down);
            }
        }
    }

    /// Flips between running and paused.
    pub fn toggle_pause(&mut self)
        ensures
            final(self).paused == !old(self).paused,
            final(self).board == old(self).board,
            final(self).last_tick == old(self).last_tick,
            final(self).focused == old(self).focused,
            final(self).hover_pos == old(self).hover_pos,
    {
        self.paused = !self.paused;
    }

    /// Records whether the window has focus; losing it clears the hover cell.
    pub fn set_focus(&mut self, gained: bool)
        ensures
            final(self).focused == gained,
            final(self).hover_pos == if gained {
                old(self).hover_pos
            } else {
                None
            },
            final(self).board == old(self).board,
            final(self).last_tick == old(self).last_tick,
            final(self).paused == old(self).paused,
    {
        self.focused = gained;
        if !gained {
            self.hover_pos = None;
        }
    }

    /// Handles a key press: space pauses or resumes; the result tells
    /// whether the key asks to quit, which escape does.
    pub fn key_down(&mut self, key: Key) -> (quit: bool)
        ensures
            quit == (key is Escape),
            final(self).paused == if key is Space {
                !old(self).paused
            } else {
                old(self).paused
            },
            final(self).board == old(self).board,
            final(self).last_tick == old(self).last_tick,
            final(self).focused == old(self).focused,
            final(self).hover_pos == old(self).hover_pos,
    {
        match key {
            Key::Escape => true,
            Key::Space => {
                self.toggle_pause();
                false
            },
            Key::Other => false,
        }
    }

    /// A pointer button pressed at screen position `(x, y)`: the left button
    /// brings the cell there to life, the right one kills it.
    pub fn pointer_button(&mut self, button: PointerButton, x: i32, y: i32)
        requires
            old(self).wf(),
        ensures
            final(self).wf(),
            final(self).last_tick == old(self).last_tick,
            final(self).paused == old(self).paused,
            final(self).focused == old(self).focused,
            final(self).hover_pos == old(self).hover_pos,
            forall|a: int, b: int|
                #![auto]
                final(self).board.alive(a, b) == if !(button is Other) && edit_target(
                    x as int,
                    y as int,
                ) == Some((a, b)) {
                    button is Left
                } else {
                    old(self).board.alive(a, b)
                },
    {
        let left = matches!(button, PointerButton::Left);
        let right = matches!(button, PointerButton::Right);
        self.handle_click(left, right, x, y);
    }

    /// The pointer moved to screen position `(x, y)` with the given buttons
    /// held: the cell there is edited as by `handle_click`.
    pub fn pointer_move(&mut self, x: i32, y: i32, left_down: bool, right_down: bool)
        requires
            old(self).wf(),
        ensures
            final(self).wf(),
            final(self).last_tick == old(self).last_tick,
            final(self).paused == old(self).paused,
            final(self).focused == old(self).focused,
            final(self).hover_pos == old(self).hover_pos,
            forall|a: int, b: int|
                #![auto]
                final(self).board.alive(a, b) == if (left_down || right_down) && edit_target(
                    x as int,
                    y as int,
                ) == Some((a, b)) {
                    left_down
                } else {
                    old(self).board.alive(a, b)
                },
    {
        self.handle_click(left_down, right_down, x, y);
    }

    /// Called once per frame at time `now`, with the pointer at screen
    /// position `(pointer_x, pointer_y)`. Advances the board by one generation
    /// when running and at least `MILLIS_PER_TICK` has passed since the last
    /// tick, and tells whether it did; then tracks the hover cell while
    /// focused and clears it otherwise.
    pub fn update(&mut self, now: u64, pointer_x: i32, pointer_y: i32) -> (advanced: bool)
        requires
            old(self).wf(),
        ensures
            final(self).wf(),
            advanced == tick_due(old(self).paused, old(self).last_tick, now),
            advanced ==> final(self).last_tick == now,
            advanced ==> forall|x: int, y: int|
                final(self).board.alive(x, y) == (in_grid(x, y) && next_alive(
                    old(self).board@,
                    x,
                    y,
                )),
            !advanced ==> final(self).last_tick == old(self).last_tick,
            !advanced ==> final(self).board@ == old(self).board@,
            old(self).paused ==> final(self).board@ == old(self).board@,
            final(self).paused == old(self).paused,
            final(self).focused == old(self).focused,
            final(self).hover_pos is None <==> (!old(self).focused || pointer_x < 0 || pointer_y
                < 0),
            final(self).hover_pos matches Some(p) ==> (p.0 as int, p.1 as int) == screen_to_grid(
                pointer_x as int,
                pointer_y as int,
            ),
    {
        let advanced = !self.paused && now >= self.last_tick && now - self.last_tick
            >= MILLIS_PER_TICK;
        if advanced {
            self.board.advance_generation();
            self.last_tick = now;
        }
        if self.focused {
            self.hover_pos = grid_pos(pointer_x, pointer_y);
        } else {
            self.hover_pos = None;
        }
        advanced
    }
}

} // verus!
