//! Mathematical model of the application state and its transitions.
//!
//! A [`Model`] is the triple the whole system revolves around: the edited
//! text as a sequence of Unicode scalar values, the cursor as a character
//! offset into it, and the interaction mode. The spec functions here define
//! every editing operation and the full key-dispatch relation; the
//! executable state in [`crate::editor`] is verified against them.

use vstd::prelude::*;

use crate::event::{KeyCode, KeyKind};

verus! {

/// The interaction mode. `Normal` treats keys as application commands
/// (quit, enter search); `Searching` treats them as editing input.
#[derive(Clone, Copy, Debug, PartialEq, Eq, Structural)]
pub enum InputMode {
    Normal,
    Searching,
}

/// Abstract application state: text, cursor, mode.
#[verifier::ext_equal]
pub struct Model {
    /// The input buffer as a sequence of Unicode scalar values
    /// (character-granular, never raw encoded bytes).
    pub text: Seq<char>,
    /// Cursor position, counted in characters.
    pub cursor: int,
    /// Current interaction mode.
    pub mode: InputMode,
}

/// The cursor invariant: the cursor stays within `[0, character count]`.
pub open spec fn model_inv(m: Model) -> bool {
    0 <= m.cursor <= m.text.len()
}

/// The state the application starts in: empty buffer, cursor at the left
/// edge, text-entry mode.
pub open spec fn initial_model() -> Model {
    Model { text: Seq::empty(), cursor: 0, mode: InputMode::Searching }
}

/// A cursor position bounded to `[0, len]`.
pub open spec fn model_clamp(pos: int, len: int) -> int {
    if pos > len {
        len
    } else {
        pos
    }
}

/// Cursor one step left, clamped. On states satisfying [`model_inv`] this
/// is exactly `max(0, cursor - 1)`.
pub open spec fn model_move_left(m: Model) -> Model {
    let dec = if m.cursor == 0 {
        0
    } else {
        m.cursor - 1
    };
    Model { cursor: model_clamp(dec, m.text.len() as int), ..m }
}

/// Cursor one step right, clamped: `min(cursor + 1, len)`.
pub open spec fn model_move_right(m: Model) -> Model {
    Model { cursor: model_clamp(m.cursor + 1, m.text.len() as int), ..m }
}

/// Insert character `c` at the cursor and advance the cursor past it.
pub open spec fn model_insert(m: Model, c: char) -> Model
    recommends
        model_inv(m),
{
    Model { text: m.text.insert(m.cursor, c), cursor: m.cursor + 1, ..m }
}

/// Remove the character immediately before the cursor and step the cursor
/// back over it; at the left edge this is a no-op.
pub open spec fn model_delete_before(m: Model) -> Model
    recommends
        model_inv(m),
{
    if m.cursor == 0 {
        m
    } else {
        Model { text: m.text.remove(m.cursor - 1), cursor: m.cursor - 1, ..m }
    }
}

/// Submit: the buffer is cleared and the cursor reset to the left edge.
pub open spec fn model_submit(m: Model) -> Model {
    Model { text: Seq::empty(), cursor: 0, ..m }
}

/// The complete dispatch relation: one key event against the current state
/// yields the next state and whether the run loop must terminate.
///
/// In `Normal` mode, `i` and `/` enter `Searching`, `q` signals
/// termination, and every other key is a no-op (the event kind is not
/// consulted). In `Searching` mode only `Press` events are honored:
/// `Enter` submits, a character key inserts, `Backspace` deletes before
/// the cursor, `Left`/`Right` move the cursor, and `Esc` returns to
/// `Normal`.
pub open spec fn step(m: Model, code: KeyCode, kind: KeyKind) -> (Model, bool)
    recommends
        model_inv(m),
{
    match m.mode {
        InputMode::Normal => match code {
            KeyCode::Char(c) => if c == 'i' || c == '/' {
                (Model { mode: InputMode::Searching, ..m }, false)
            } else if c == 'q' {
                (m, true)
            } else {
                (m, false)
            },
            _ => (m, false),
        },
        InputMode::Searching => if kind == KeyKind::Press {
            match code {
                KeyCode::Enter => (model_submit(m), false),
                KeyCode::Char(c) => (model_insert(m, c), false),
                KeyCode::Backspace => (model_delete_before(m), false),
                KeyCode::Left => (model_move_left(m), false),
                KeyCode::Right => (model_move_right(m), false),
                KeyCode::Esc => (Model { mode: InputMode::Normal, ..m }, false),
                KeyCode::Other => (m, false),
            }
        } else {
            (m, false)
        },
    }
}

} // verus!
