//! The color-picker modal: a fixed grid of palette colors with a bounded
//! cursor, the hex field, and the focus ring over the four focusable
//! regions.

use vstd::prelude::*;

use crate::color::{rgb_hex, rgb_hex_chars, upper_hex_char_str, Color};
use crate::color_input::{ColorInput, ColorInputView};

verus! {

/// The four focusable regions, in ring order.
#[derive(Clone, Copy, Debug, PartialEq, Eq, Structural)]
pub enum Focus {
    Grid,
    Input,
    Apply,
    Cancel,
}

impl Default for Focus {
    /// The grid has focus when the modal first opens.
    fn default() -> (r: Self)
        ensures
            r == Focus::Grid,
    {
        Focus::Grid
    }
}

/// The next focus in ring order: Grid, Input, Apply, Cancel, and around.
pub open spec fn next_focus(f: Focus) -> Focus {
    match f {
        Focus::Grid => Focus::Input,
        Focus::Input => Focus::Apply,
        Focus::Apply => Focus::Cancel,
        Focus::Cancel => Focus::Grid,
    }
}

/// The previous focus in ring order.
pub open spec fn prev_focus(f: Focus) -> Focus {
    match f {
        Focus::Grid => Focus::Cancel,
        Focus::Input => Focus::Grid,
        Focus::Apply => Focus::Input,
        Focus::Cancel => Focus::Apply,
    }
}

/// The focus ring has cycle length four, and stepping backward is the exact
/// inverse of stepping forward.
pub proof fn lemma_focus_cycle(f: Focus)
    ensures
        next_focus(next_focus(next_focus(next_focus(f)))) == f,
        prev_focus(next_focus(f)) == f,
        next_focus(prev_focus(f)) == f,
{
}

/// Ghost state of the whole picker.
pub struct PickerView {
    pub modal_state: bool,
    pub row: int,
    pub col: int,
    pub rows: int,
    pub cols: int,
    pub colors: Seq<Color>,
    pub focus: Focus,
    pub input: ColorInputView,
}

impl PickerView {
    /// Structural validity: a non-empty grid, the cursor inside it, the
    /// color table consistent with the dimensions, and a well-formed field.
    pub open spec fn wf(self) -> bool {
        &&& self.rows >= 1
        &&& self.cols >= 1
        &&& 0 <= self.row < self.rows
        &&& 0 <= self.col < self.cols
        &&& self.colors.len() == self.rows * self.cols
        &&& self.input.wf()
    }

    /// The row-major index of the cursor.
    pub open spec fn cursor_index(self) -> int {
        self.row * self.cols + self.col
    }

    /// The color under the cursor, or nothing if the table is inconsistent
    /// with the dimensions (which validity rules out).
    pub open spec fn selected(self) -> Option<Color> {
        if 0 <= self.cursor_index() < self.colors.len() {
            Some(self.colors[self.cursor_index()])
        } else {
            None
        }
    }
}

/// A cursor inside the grid has a row-major index inside the color table.
pub proof fn lemma_cursor_index_bound(row: int, col: int, rows: int, cols: int)
    requires
        0 <= row < rows,
        0 <= col < cols,
    ensures
        0 <= row * cols + col < rows * cols,
{
    assert(0 <= row * cols + col < rows * cols) by (nonlinear_arith)
        requires
            0 <= row < rows,
            0 <= col < cols,
    ;
}

/// The color-picker modal as the host owns it.
#[derive(Debug)]
pub struct ColorPickerWidget {
    pub modal_state: bool,
    pub grid_index: (usize, usize),
    pub color_input: ColorInput,
    pub focus: Focus,
    pub colors: Vec<Color>,
    pub grid_dimensions: (usize, usize),
}

impl View for ColorPickerWidget {
    type V = PickerView;

    open spec fn view(&self) -> PickerView {
        PickerView {
            modal_state: self.modal_state,
            row: self.grid_index.0 as int,
            col: self.grid_index.1 as int,
            rows: self.grid_dimensions.0 as int,
            cols: self.grid_dimensions.1 as int,
            colors: self.colors@,
            focus: self.focus,
            input: self.color_input@,
        }
    }
}

impl ColorPickerWidget {
    /// A closed picker over the given color table, cursor at the origin,
    /// focus on the grid, field empty.
    pub fn new(colors: Vec<Color>, rows: usize, cols: usize) -> (r: Self)
        requires
            rows >= 1,
            cols >= 1,
            colors@.len() == rows * cols,
        ensures
            r@.wf(),
            !r@.modal_state,
            r@.row == 0,
            r@.col == 0,
            r@.rows == rows,
            r@.cols == cols,
            r@.colors == colors@,
            r@.focus == Focus::Grid,
            r@.input.input.len() == 0,
            r@.input.cursor == 0,
    {
        ColorPickerWidget {
            modal_state: false,
            grid_index: (0, 0),
            color_input: ColorInput::default(),
            focus: Focus::default(),
            colors,
            grid_dimensions: (rows, cols),
        }
    }

    /// Rotates focus forward through the ring.
    pub fn focus_next(&mut self)
        ensures
            final(self)@ == (PickerView { focus: next_focus(old(self)@.focus), ..old(self)@ }),
    {
        self.focus = match self.focus {
            Focus::Grid => Focus::Input,
            Focus::Input => Focus::Apply,
            Focus::Apply => Focus::Cancel,
            Focus::Cancel => Focus::Grid,
        };
    }

    /// Rotates focus backward through the ring.
    pub fn focus_prev(&mut self)
        ensures
            final(self)@ == (PickerView { focus: prev_focus(old(self)@.focus), ..old(self)@ }),
    {
        self.focus = match self.focus {
            Focus::Grid => Focus::Cancel,
            Focus::Input => Focus::Grid,
            Focus::Apply => Focus::Input,
            Focus::Cancel => Focus::Apply,
        };
    }

    /// The color under the grid cursor.
    pub fn selected_color(&self) -> (r: Option<Color>)
        requires
            self@.wf(),
        ensures
            r == self@.selected(),
            r is Some,
    {
        let n = self.colors.len();
        proof {
            lemma_cursor_index_bound(self@.row, self@.col, self@.rows, self@.cols);
            assert(self@.row * self@.cols + self@.col < n);
        }
        let (_, cols) = self.grid_dimensions;
        let idx = self.grid_index.0 * cols + self.grid_index.1;
        Some(self.colors[idx])
    }

    /// The color at an arbitrary in-bounds cell, row-major.
    pub fn get_color_at(&self, row: usize, col: usize) -> (r: Option<Color>)
        requires
            self@.wf(),
            row < self@.rows,
            col < self@.cols,
        ensures
            r == Some(self@.colors[row * self@.cols + col]),
    {
        let n = self.colors.len();
        proof {
            lemma_cursor_index_bound(row as int, col as int, self@.rows, self@.cols);
            assert(row * self@.cols + col < n);
        }
        let (_, cols) = self.grid_dimensions;
        let idx = row * cols + col;
        Some(self.colors[idx])
    }

    /// The canonical `RRGGBB` text of a color: six uppercase hex digits for
    /// an RGB triple, nothing for a symbolic or indexed color.
    pub fn color_to_hex(color: Color) -> (r: Option<String>)
        ensures
            color matches Color::Rgb(cr, cg, cb) ==> r matches Some(h) && h@ == rgb_hex(
                cr,
                cg,
                cb,
            ),
            !(color is Rgb) ==> r is None,
    {
        match color {
            Color::Rgb(cr, cg, cb) => {
                let digits = rgb_hex_chars(cr, cg, cb);
                proof {
                    crate::color::lemma_rgb_hex_wf(cr, cg, cb);
                }
                let mut s = String::new();
                let mut i: usize = 0;
                while i < digits.len()
                    invariant
                        digits@ == rgb_hex(cr, cg, cb),
                        forall|j: int|
                            0 <= j < digits@.len() ==> crate::color::is_upper_hex(
                                #[trigger] digits@[j],
                            ),
                        i <= digits.len(),
                        s@ == digits@.subrange(0, i as int),
                    decreases digits.len() - i,
                {
                    s.append(upper_hex_char_str(digits[i]));
                    i = i + 1;
                    proof {
                        assert(s@ =~= digits@.subrange(0, i as int));
                    }
                }
                proof {
                    assert(s@ =~= rgb_hex(cr, cg, cb));
                }
                Some(s)
            },
            _ => None,
        }
    }
}

} // verus!
