//! The guarantees the editing state machine gives as a whole, proved over
//! the model in [`crate::model`]. Together with [`crate::editor`]'s
//! contracts — each operation realizes its model transition — these carry
//! over to every execution of the library.

use vstd::prelude::*;

use crate::event::{KeyCode, KeyKind};
use crate::model::{
    initial_model, model_delete_before, model_insert, model_inv, model_move_left,
    model_move_right, step, InputMode, Model,
};

verus! {

/// The initial state satisfies the cursor invariant, and every key event —
/// whatever it is — leads from a state satisfying it to another such state:
/// the invariant holds in all reachable states.
pub proof fn lemma_step_preserves_inv(m: Model, code: KeyCode, kind: KeyKind)
    requires
        model_inv(m),
    ensures
        model_inv(initial_model()),
        model_inv(step(m, code, kind).0),
{
}

/// Round trip: inserting a character at the cursor and then deleting
/// before the cursor restores the buffer, the cursor, and the mode.
pub proof fn lemma_insert_then_delete(m: Model, c: char)
    requires
        model_inv(m),
    ensures
        model_delete_before(model_insert(m, c)) == m,
{
    assert(model_insert(m, c).text.remove(m.cursor) =~= m.text);
    assert(model_delete_before(model_insert(m, c)) =~= m);
}

/// Idempotent boundaries: moving left at the left edge, moving right at
/// the end of the buffer, and deleting at the left edge are all no-ops.
pub proof fn lemma_boundary_noops(m: Model)
    requires
        model_inv(m),
    ensures
        m.cursor == 0 ==> model_move_left(m) == m,
        m.cursor == m.text.len() ==> model_move_right(m) == m,
        m.cursor == 0 ==> model_delete_before(m) == m,
{
    if m.cursor == 0 {
        assert(model_move_left(m) =~= m);
    }
    if m.cursor == m.text.len() {
        assert(model_move_right(m) =~= m);
    }
}

/// Mode gating of `q`: in `Searching` mode a pressed `q` is literal input —
/// it is inserted and the loop goes on — while in `Normal` mode `q`
/// terminates the loop and changes nothing, whatever the event kind.
pub proof fn lemma_quit_is_mode_gated(m: Model, kind: KeyKind)
    requires
        model_inv(m),
    ensures
        m.mode == InputMode::Searching && kind == KeyKind::Press ==> step(
            m,
            KeyCode::Char('q'),
            kind,
        ) == (model_insert(m, 'q'), false),
        m.mode == InputMode::Normal ==> step(m, KeyCode::Char('q'), kind) == (m, true),
{
}

} // verus!
