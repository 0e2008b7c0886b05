//! The hex text field: a bounded string of hex digits and a cursor offset,
//! edited one key stroke at a time. Every rejected input (a non-hex
//! character, a full field, a cursor already at an edge) is a silent no-op.

use vstd::prelude::*;

use crate::color::{
    hex_digit, hex_val, is_hex_digit, is_hex_digit_char, is_upper_hex, to_upper_hex_char,
    upper_hex_char_str,
};
use crate::key::{KeyCode, KeyEvent, KeyEventKind};

verus! {

/// Ghost state of the field: its digits, cursor offset, and focus flag.
pub struct ColorInputView {
    pub input: Seq<char>,
    pub cursor: int,
    pub focused: bool,
}

impl ColorInputView {
    /// Structural validity: at most six digits, each a canonical uppercase
    /// hex digit, and the cursor inside the text.
    pub open spec fn wf(self) -> bool {
        &&& self.input.len() <= 6
        &&& forall|i: int| 0 <= i < self.input.len() ==> is_upper_hex(#[trigger] self.input[i])
        &&& 0 <= self.cursor <= self.input.len()
    }

    /// The field holds a full color: exactly six digits, all hex.
    pub open spec fn valid(self) -> bool {
        &&& self.input.len() == 6
        &&& forall|i: int| 0 <= i < self.input.len() ==> is_hex_digit(#[trigger] self.input[i])
    }
}

/// The field state after one key stroke. Only presses edit; a key with no
/// defined effect leaves the field unchanged.
pub open spec fn input_after_key(v: ColorInputView, key: KeyEvent) -> ColorInputView {
    if key.kind != KeyEventKind::Press {
        v
    } else {
        match key.code {
            KeyCode::Char(c) => if is_hex_digit(c) && v.input.len() < 6 {
                ColorInputView {
                    input: v.input.insert(v.cursor, hex_digit(hex_val(c))),
                    cursor: v.cursor + 1,
                    focused: v.focused,
                }
            } else {
                v
            },
            KeyCode::Backspace => if v.cursor > 0 {
                ColorInputView {
                    input: v.input.remove(v.cursor - 1),
                    cursor: v.cursor - 1,
                    focused: v.focused,
                }
            } else {
                v
            },
            KeyCode::Left => ColorInputView {
                input: v.input,
                cursor: if v.cursor > 0 {
                    v.cursor - 1
                } else {
                    0
                },
                focused: v.focused,
            },
            KeyCode::Delete => if v.cursor < v.input.len() {
                ColorInputView { input: v.input.remove(v.cursor), cursor: v.cursor, focused: v.focused }
            } else {
                v
            },
            KeyCode::Home => ColorInputView { input: v.input, cursor: 0, focused: v.focused },
            KeyCode::Right => ColorInputView {
                input: v.input,
                cursor: if v.cursor < v.input.len() {
                    v.cursor + 1
                } else {
                    v.input.len() as int
                },
                focused: v.focused,
            },
            _ => v,
        }
    }
}

/// Editing preserves structural validity.
pub proof fn lemma_edit_preserves_wf(v: ColorInputView, key: KeyEvent)
    requires
        v.wf(),
    ensures
        input_after_key(v, key).wf(),
{
    let w = input_after_key(v, key);
    if key.kind == KeyEventKind::Press {
        match key.code {
            KeyCode::Char(c) => {
                if is_hex_digit(c) && v.input.len() < 6 {
                    crate::color::lemma_hex_digit_val(hex_val(c));
                    assert forall|i: int| 0 <= i < w.input.len() implies is_upper_hex(
                        #[trigger] w.input[i],
                    ) by {
                        if i < v.cursor {
                            assert(w.input[i] == v.input[i]);
                        } else if i == v.cursor {
                            assert(w.input[i] == hex_digit(hex_val(c)));
                        } else {
                            assert(w.input[i] == v.input[i - 1]);
                        }
                    }
                }
            },
            _ => {},
        }
    }
}

/// The hex text field as the host owns it.
#[derive(Debug, Clone)]
pub struct ColorInput {
    pub input: Vec<char>,
    pub cursor_pos: usize,
    pub focused: bool,
}

impl View for ColorInput {
    type V = ColorInputView;

    open spec fn view(&self) -> ColorInputView {
        ColorInputView {
            input: self.input@,
            cursor: self.cursor_pos as int,
            focused: self.focused,
        }
    }
}

impl Default for ColorInput {
    /// An empty field with the cursor at the start.
    fn default() -> (r: Self)
        ensures
            r@.input.len() == 0,
            r@.cursor == 0,
            !r@.focused,
            r@.wf(),
    {
        ColorInput { input: Vec::new(), cursor_pos: 0, focused: false }
    }
}

impl ColorInput {
    /// Applies one key stroke to the field, exactly as `input_after_key`
    /// describes: hex digits are upper-cased and inserted while room is
    /// left, Backspace and Delete remove around the cursor, Left, Right and
    /// Home move it; everything else is a no-op.
    pub fn handle_key_event(&mut self, key: KeyEvent)
        requires
            old(self)@.wf(),
        ensures
            final(self)@ == input_after_key(old(self)@, key),
            final(self)@.wf(),
    {
        proof {
            lemma_edit_preserves_wf(old(self)@, key);
        }
        if key.kind != KeyEventKind::Press {
            return ;
        }
        match key.code {
            KeyCode::Char(c) => {
                if is_hex_digit_char(c) && self.input.len() < 6 {
                    let u = to_upper_hex_char(c);
                    proof {
                        crate::color::lemma_hex_digit_val(hex_val(c));
                        crate::color::lemma_upper_hex_canon(u);
                    }
                    self.input.insert(self.cursor_pos, u);
                    self.cursor_pos = self.cursor_pos + 1;
                }
            },
            KeyCode::Backspace => {
                if self.cursor_pos > 0 {
                    self.input.remove(self.cursor_pos - 1);
                    self.cursor_pos = self.cursor_pos - 1;
                }
            },
            KeyCode::Left => {
                if self.cursor_pos > 0 {
                    self.cursor_pos = self.cursor_pos - 1;
                }
            },
            KeyCode::Delete => {
                if self.cursor_pos < self.input.len() {
                    self.input.remove(self.cursor_pos);
                }
            },
            KeyCode::Home => {
                self.cursor_pos = 0;
            },
            KeyCode::Right => {
                if self.cursor_pos < self.input.len() {
                    self.cursor_pos = self.cursor_pos + 1;
                }
            },
            _ => {},
        }
    }

    /// Overwrites the whole text with pre-validated digits and puts the
    /// cursor at end-of-text. Used by the grid-to-field synchronization,
    /// never by raw key routing.
    pub fn replace_all(&mut self, text: Vec<char>)
        requires
            text@.len() <= 6,
            forall|i: int| 0 <= i < text@.len() ==> is_upper_hex(#[trigger] text@[i]),
        ensures
            final(self)@.input == text@,
            final(self)@.cursor == text@.len(),
            final(self)@.focused == old(self)@.focused,
            final(self)@.wf(),
    {
        self.cursor_pos = text.len();
        self.input = text;
    }

    /// The current text as a string.
    pub fn value(&self) -> (r: String)
        requires
            self@.wf(),
        ensures
            r@ == self@.input,
    {
        let mut s = String::new();
        let mut i: usize = 0;
        while i < self.input.len()
            invariant
                self@.wf(),
                i <= self.input.len(),
                s@ == self@.input.subrange(0, i as int),
            decreases self.input.len() - i,
        {
            let c = self.input[i];
            s.append(upper_hex_char_str(c));
            i = i + 1;
            proof {
                assert(s@ =~= self@.input.subrange(0, i as int));
            }
        }
        proof {
            assert(s@ =~= self@.input);
        }
        s
    }

    /// True iff the field holds exactly six hex digits.
    pub fn is_valid(&self) -> (r: bool)
        ensures
            r == self@.valid(),
    {
        if self.input.len() != 6 {
            return false;
        }
        let mut i: usize = 0;
        while i < self.input.len()
            invariant
                self.input@.len() == 6,
                i <= 6,
                forall|j: int| 0 <= j < i ==> is_hex_digit(#[trigger] self.input@[j]),
            decreases self.input.len() - i,
        {
            if !is_hex_digit_char(self.input[i]) {
                return false;
            }
            i = i + 1;
        }
        true
    }

    /// The screen position of the caret inside a text area whose first cell
    /// is at `(x, y)`: the cursor offset to the right of `x`, on row `y`.
    pub fn cursor_position(&self, x: u16, y: u16) -> (r: (u16, u16))
        requires
            self@.wf(),
            x + self@.cursor <= u16::MAX,
        ensures
            r.0 == x + self@.cursor,
            r.1 == y,
    {
        (x + self.cursor_pos as u16, y)
    }
}

} // verus!
