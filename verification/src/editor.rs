//! The executable application state and its editing operations.
//!
//! [`App`] holds the input buffer as a vector of characters, so every
//! operation is character-granular by construction and can never split a
//! multi-byte encoding. The byte offset a renderer or backend may need is
//! recovered by [`App::byte_index`], whose contract is stated against the
//! UTF-8 encoding of the buffer. Each operation is verified against the
//! corresponding transition of [`crate::model`].

use vstd::prelude::*;
use vstd::utf8::char_is_scalar;
use vstd::utf8::encode_scalar;
use vstd::utf8::encode_utf8;

use crate::event::{KeyCode, KeyKind};
use crate::model::{
    initial_model, model_clamp, model_delete_before, model_insert, model_inv, model_move_left,
    model_move_right, model_submit, step, InputMode, Model,
};

verus! {

/// Holds the state of the application.
pub struct App {
    /// Current value of the input box, one element per character.
    pub input: Vec<char>,
    /// Position of the cursor in the editor area, counted in characters.
    pub character_index: usize,
    /// Current input mode.
    pub input_mode: InputMode,
}

impl View for App {
    type V = Model;

    open spec fn view(&self) -> Model {
        Model { text: self.input@, cursor: self.character_index as int, mode: self.input_mode }
    }
}

impl App {
    /// Well-formedness: the cursor lies within `[0, character count]`.
    pub open spec fn wf(self) -> bool {
        model_inv(self.view())
    }

    /// A fresh application: empty buffer, cursor at the left edge,
    /// text-entry mode.
    pub fn new() -> (app: App)
        ensures
            app@ == initial_model(),
            app.wf(),
    {
        let app = App {
            input: Vec::new(),
            input_mode: InputMode::Searching,
            character_index: 0,
        };
        proof {
            assert(app@ =~= initial_model());
        }
        app
    }

    /// Bounds a prospective cursor position to `[0, character count]`.
    pub fn clamp_cursor(&self, new_cursor_pos: usize) -> (r: usize)
        ensures
            r == model_clamp(new_cursor_pos as int, self.input@.len() as int),
    {
        let count = self.input.len();
        if new_cursor_pos > count {
            count
        } else {
            new_cursor_pos
        }
    }

    /// Moves the cursor one character to the left; at the left edge this is
    /// a no-op.
    pub fn move_cursor_left(&mut self)
        ensures
            final(self)@ == model_move_left(old(self)@),
            final(self).wf(),
    {
        let cursor_moved_left = self.character_index.saturating_sub(1);
        self.character_index = self.clamp_cursor(cursor_moved_left);
    }

    /// Moves the cursor one character to the right; at the end of the
    /// buffer this is a no-op.
    pub fn move_cursor_right(&mut self)
        ensures
            final(self)@ == model_move_right(old(self)@),
            final(self).wf(),
    {
        let cursor_moved_right = self.character_index.saturating_add(1);
        self.character_index = self.clamp_cursor(cursor_moved_right);
        proof {
            vstd::std_specs::vec::axiom_spec_len(&self.input);
            assert(self@ =~= model_move_right(old(self)@));
        }
    }

    /// Inserts `new_char` at the cursor and advances the cursor past it.
    pub fn enter_char(&mut self, new_char: char)
        requires
            old(self).wf(),
        ensures
            final(self)@ == model_insert(old(self)@, new_char),
            final(self).wf(),
    {
        self.input.insert(self.character_index, new_char);
        self.move_cursor_right();
    }

    /// Returns the byte index based on the character position.
    ///
    /// Since each character in the buffer can occupy multiple bytes once
    /// encoded, the byte index is the length of the UTF-8 encoding of the
    /// characters before the cursor — a boundary lookup, never an
    /// arithmetic guess.
    pub fn byte_index(&self) -> (r: usize)
        requires
            self.wf(),
            self.input@.len() * 4 <= usize::MAX,
        ensures
            r == encode_utf8(self.input@.take(self.character_index as int)).len(),
    {
        let mut i: usize = 0;
        let mut offset: usize = 0;
        proof {
            assert(self.input@.take(0) =~= Seq::<char>::empty());
        }
        while i < self.character_index
            invariant
                self.wf(),
                self.input@.len() * 4 <= usize::MAX,
                i <= self.character_index,
                offset == encode_utf8(self.input@.take(i as int)).len(),
                offset <= 4 * i,
            decreases self.character_index - i,
        {
            let c = self.input[i];
            proof {
                lemma_encode_utf8_take_one_more(self.input@, i as int);
                char_is_scalar(c);
            }
            offset = offset + char_utf8_len(c);
            i = i + 1;
        }
        offset
    }

    /// Removes the character immediately before the cursor and steps the
    /// cursor back over it; at the left edge this is a no-op. Working on
    /// whole characters keeps the buffer off encoding boundaries.
    pub fn delete_char(&mut self)
        requires
            old(self).wf(),
        ensures
            final(self)@ == model_delete_before(old(self)@),
            final(self).wf(),
    {
        let is_not_cursor_leftmost = self.character_index != 0;
        if is_not_cursor_leftmost {
            let _removed = self.input.remove(self.character_index - 1);
            self.move_cursor_left();
        }
    }

    /// Puts the cursor back at the left edge.
    pub fn reset_cursor(&mut self)
        ensures
            final(self).input == old(self).input,
            final(self).input_mode == old(self).input_mode,
            final(self).character_index == 0,
            final(self).wf(),
    {
        self.character_index = 0;
    }

    /// Submits the current input: the buffer is cleared and the cursor
    /// reset.
    pub fn submit_message(&mut self)
        ensures
            final(self)@ == model_submit(old(self)@),
            final(self).wf(),
    {
        self.input.clear();
        self.reset_cursor();
    }

    /// Dispatches one key event against the current mode, mutating the
    /// state as [`step`] prescribes; returns whether the run loop must
    /// terminate.
    pub fn handle_key(&mut self, code: KeyCode, kind: KeyKind) -> (quit: bool)
        requires
            old(self).wf(),
        ensures
            final(self)@ == step(old(self)@, code, kind).0,
            quit == step(old(self)@, code, kind).1,
            final(self).wf(),
    {
        match self.input_mode {
            InputMode::Normal => match code {
                KeyCode::Char(c) => {
                    if c == 'i' || c == '/' {
                        self.input_mode = InputMode::Searching;
                        false
                    } else if c == 'q' {
                        true
                    } else {
                        false
                    }
                },
                _ => false,
            },
            InputMode::Searching => {
                if matches!(kind, KeyKind::Press) {
                    match code {
                        KeyCode::Enter => {
                            self.submit_message();
                            false
                        },
                        KeyCode::Char(to_insert) => {
                            self.enter_char(to_insert);
                            false
                        },
                        KeyCode::Backspace => {
                            self.delete_char();
                            false
                        },
                        KeyCode::Left => {
                            self.move_cursor_left();
                            false
                        },
                        KeyCode::Right => {
                            self.move_cursor_right();
                            false
                        },
                        KeyCode::Esc => {
                            self.input_mode = InputMode::Normal;
                            false
                        },
                        KeyCode::Other => false,
                    }
                } else {
                    false
                }
            },
        }
    }
}

/// The width in bytes of one character's UTF-8 encoding.
fn char_utf8_len(c: char) -> (n: usize)
    ensures
        n == encode_scalar(c as u32).len(),
{
    proof {
        char_is_scalar(c);
    }
    let u = c as u32;
    if u < 0x80 {
        1
    } else if u < 0x800 {
        2
    } else if u < 0x10000 {
        3
    } else {
        4
    }
}

/// Appending one character to a sequence appends that character's encoding
/// to the sequence's UTF-8 encoding.
proof fn lemma_encode_utf8_push(s: Seq<char>, c: char)
    ensures
        encode_utf8(s.push(c)) == encode_utf8(s) + encode_scalar(c as u32),
    decreases s.len(),
{
    if s.len() == 0 {
        assert(s.push(c)[0] == c);
        assert(s.push(c).drop_first() =~= Seq::<char>::empty());
        assert(encode_utf8(Seq::<char>::empty()) =~= Seq::<u8>::empty());
        assert(encode_utf8(s.push(c)) == encode_scalar(c as u32) + encode_utf8(
            s.push(c).drop_first(),
        ));
        assert(encode_utf8(s) =~= Seq::<u8>::empty());
        assert(encode_utf8(s.push(c)) =~= encode_utf8(s) + encode_scalar(c as u32));
    } else {
        assert(s.push(c).drop_first() =~= s.drop_first().push(c));
        lemma_encode_utf8_push(s.drop_first(), c);
        assert(encode_utf8(s.push(c)) =~= encode_utf8(s) + encode_scalar(c as u32));
    }
}

/// Taking one more character extends the encoded length by that
/// character's encoded width.
proof fn lemma_encode_utf8_take_one_more(s: Seq<char>, i: int)
    requires
        0 <= i < s.len(),
    ensures
        encode_utf8(s.take(i + 1)).len() == encode_utf8(s.take(i)).len() + encode_scalar(
            s[i] as u32,
        ).len(),
{
    assert(s.take(i + 1) =~= s.take(i).push(s[i]));
    lemma_encode_utf8_push(s.take(i), s[i]);
}

} // verus!
