//! Key events as the dispatcher sees them: a key code and the kind of the
//! event (press, release, or repeat). The run loop translates whatever the
//! terminal backend delivers into these plain values before handing them to
//! the library.

use vstd::prelude::*;

verus! {

/// The keys the dispatcher distinguishes. Every other key is `Other`,
/// which is ignored in both modes.
#[derive(Clone, Copy, Debug, PartialEq, Eq, Structural)]
pub enum KeyCode {
    /// A printable character key.
    Char(char),
    Enter,
    Backspace,
    Left,
    Right,
    Esc,
    Other,
}

/// The kind of a key event. Terminals that report key-up deliver `Release`
/// and `Repeat` events as well; in text-entry mode only `Press` is honored,
/// so such terminals do not produce duplicate edits.
#[derive(Clone, Copy, Debug, PartialEq, Eq, Structural)]
pub enum KeyKind {
    Press,
    Release,
    Repeat,
}

} // verus!
