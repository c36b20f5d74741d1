//! Raw events entering the control loop.
//!
//! Three independent sources feed the loop: a periodic simulation tick, a
//! periodic render request, and an asynchronous key-event stream. The
//! runtime that races those sources lives outside this crate; it hands each
//! fired source over as one [`Event`] value, in firing order. Key events
//! carry only what the loop reads of them: the key code and whether the
//! transition was a press, a repeat, or a release.

use vstd::prelude::*;

verus! {

/// The part of a key code that the control loop distinguishes. Every key
/// that is not a printable character, the left arrow, or the right arrow is
/// collapsed into `Other`.
#[derive(Clone, Copy, PartialEq, Eq, Structural, Debug)]
pub enum KeyCode {
    Char(char),
    Left,
    Right,
    Other,
}

/// The transition kind of a key event.
#[derive(Clone, Copy, PartialEq, Eq, Structural, Debug)]
pub enum KeyKind {
    Press,
    Repeat,
    Release,
}

/// One key event: which key, and which transition.
#[derive(Clone, Copy, PartialEq, Eq, Structural, Debug)]
pub struct KeyData {
    pub code: KeyCode,
    pub kind: KeyKind,
}

/// One event delivered to the control loop, in the order the sources fired.
/// `Error` stands for a failed read on the key-event source; it is non-fatal
/// and the loop treats it as a no-op.
#[derive(Clone, Copy, PartialEq, Eq, Structural, Debug)]
pub enum Event {
    Error,
    Tick,
    Render,
    Key(KeyData),
}

} // verus!
