//! Normalized key events delivered by the terminal surface.

use vstd::prelude::*;

verus! {

/// A normalized key.
#[derive(PartialEq, Eq, Structural, Clone, Copy)]
pub enum Key {
    Enter,
    Backspace,
    ArrowUp,
    ArrowDown,
    ArrowLeft,
    ArrowRight,
    /// Any other printable or editing key, by its character.
    Char(char),
}

/// A normalized key event.  Only the `keydown` phase of the raw
/// terminal event is acted on; every other phase arrives with
/// `keydown == false` and is dropped.
#[derive(PartialEq, Eq, Structural, Clone, Copy)]
pub struct KeyEvent {
    pub key: Key,
    pub keydown: bool,
}

/// Context in which input is handed back to the shell by the host.
#[derive(PartialEq, Eq, Structural, Clone, Copy)]
pub enum ShellInputContext {
    FileInput,
}

} // verus!
