//! Input handling: the one key check the demo makes each frame.
//!
//! Each loop iteration the input handler looks at the state of exactly one
//! key, Escape. If it is pressed, window closure is requested; any other
//! key, and any state other than a press, leaves the close flag as it was.

use vstd::prelude::*;

verus! {

use crate::window::WindowState;

/// The key a key event is about. Only Escape matters to the demo; every
/// other key is `Other`.
#[derive(PartialEq, Eq, Structural, Clone, Copy, Debug)]
pub enum Key {
    Escape,
    Other,
}

/// The state a key is observed in.
#[derive(PartialEq, Eq, Structural, Clone, Copy, Debug)]
pub enum KeyAction {
    Press,
    Release,
    Repeat,
}

/// A key observation made during one loop iteration.
#[derive(PartialEq, Eq, Structural, Clone, Copy, Debug)]
pub struct KeyEvent {
    pub key: Key,
    pub action: KeyAction,
}

/// Whether a key observation requests closure: it does exactly when it is
/// a press of Escape.
pub open spec fn requests_close(ev: KeyEvent) -> bool {
    ev.key == Key::Escape && ev.action == KeyAction::Press
}

/// The input handler: requests window closure exactly when Escape is
/// observed pressed, and never withdraws a closure request already made.
pub fn process_input(window: &mut WindowState, ev: KeyEvent)
    ensures
        final(window).close_requested == (old(window).close_requested || requests_close(ev)),
{
    if ev.key == Key::Escape && ev.action == KeyAction::Press {
        window.set_should_close(true);
    }
}

} // verus!
