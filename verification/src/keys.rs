//! Key presses as plain values, as the controller and the screens see
//! them. The terminal layer translates its own event type into this one
//! before anything here runs.

use vstd::prelude::*;

verus! {

/// The keys the application reacts to. Anything else arrives as `Other`.
#[derive(Debug, Clone, Copy, PartialEq, Eq, Structural)]
pub enum KeyCode {
    Char(char),
    Up,
    Down,
    Left,
    Right,
    Enter,
    Esc,
    Backspace,
    Delete,
    Home,
    End,
    Other,
}

/// One key press: the key itself and whether control was held.
#[derive(Debug, Clone, Copy, PartialEq, Eq, Structural)]
pub struct KeyInput {
    pub code: KeyCode,
    pub ctrl: bool,
}

impl KeyInput {
    /// A plain press of a key, with no modifier.
    pub fn plain(code: KeyCode) -> (r: KeyInput)
        ensures
            r.code == code,
            !r.ctrl,
    {
        KeyInput { code, ctrl: false }
    }

    /// A press with control held.
    pub fn with_ctrl(code: KeyCode) -> (r: KeyInput)
        ensures
            r.code == code,
            r.ctrl,
    {
        KeyInput { code, ctrl: true }
    }
}

/// Whether a key press asks the whole application to quit: control-C, or
/// a plain `q`. These are handled before the active screen sees the key,
/// so no screen can shadow them.
pub open spec fn is_global_quit(key: KeyInput) -> bool {
    ||| (key.code == KeyCode::Char('c') && key.ctrl)
    ||| (key.code == KeyCode::Char('q') && !key.ctrl)
}

} // verus!
