//! The modal controller: routes one key event at a time to exactly one of
//! the grid, the field, or the focus ring, keeps the field synchronized
//! with the grid selection, and tells the host whether to keep running.
//!
//! Every transition is total: an input with no defined effect is a no-op,
//! never an error.

use vstd::prelude::*;

use crate::color::Color;
use crate::color_input::{input_after_key, ColorInputView};
use crate::key::{KeyCode, KeyEvent, KeyEventKind};
use crate::modal::{next_focus, prev_focus, ColorPickerWidget, Focus, PickerView};

verus! {

/// The host state: it owns the one picker instance.
#[derive(Debug)]
pub struct Model {
    pub color_picker: ColorPickerWidget,
}

impl Model {
    /// Wraps a picker for the host loop.
    pub fn new(color_picker: ColorPickerWidget) -> (r: Self)
        ensures
            r.color_picker@ == color_picker@,
    {
        Model { color_picker }
    }
}

/// One step of the host loop: a raw key stroke, or one of the picker's
/// internal commands that a key stroke maps to.
#[derive(Clone, Copy, Debug)]
pub enum Message {
    KeyPress(KeyEvent),
    ToggleModal,
    ApplyColor,
    UpdateColorFromGrid,
    CancelColorSelection,
    FocusNext,
    FocusPrev,
    Quit,
    Ignore,
}

/// Whether a key code is one of the four grid motions.
pub open spec fn is_arrow(code: KeyCode) -> bool {
    match code {
        KeyCode::Up | KeyCode::Down | KeyCode::Left | KeyCode::Right => true,
        _ => false,
    }
}

/// The grid cursor after one motion: rows and columns step by one and clamp
/// at the edges, never wrapping. A non-arrow code moves nothing.
pub open spec fn moved_index(row: int, col: int, rows: int, cols: int, code: KeyCode) -> (
    int,
    int,
) {
    let max_row = if rows >= 1 {
        rows - 1
    } else {
        0
    };
    let max_col = if cols >= 1 {
        cols - 1
    } else {
        0
    };
    match code {
        KeyCode::Up => (
            if row > 0 {
                row - 1
            } else {
                0
            },
            col,
        ),
        KeyCode::Down => (
            if row + 1 <= max_row {
                row + 1
            } else {
                max_row
            },
            col,
        ),
        KeyCode::Left => (
            row,
            if col > 0 {
                col - 1
            } else {
                0
            },
        ),
        KeyCode::Right => (
            row,
            if col + 1 <= max_col {
                col + 1
            } else {
                max_col
            },
        ),
        _ => (row, col),
    }
}

/// The picker after one grid motion.
pub open spec fn moved_picker(p: PickerView, code: KeyCode) -> PickerView {
    PickerView {
        row: moved_index(p.row, p.col, p.rows, p.cols, code).0,
        col: moved_index(p.row, p.col, p.rows, p.cols, code).1,
        ..p
    }
}

/// Motion keeps the cursor inside the grid: no sequence of moves can escape
/// the bounds.
pub proof fn lemma_move_in_bounds(row: int, col: int, rows: int, cols: int, code: KeyCode)
    requires
        0 <= row < rows,
        0 <= col < cols,
    ensures
        0 <= moved_index(row, col, rows, cols, code).0 < rows,
        0 <= moved_index(row, col, rows, cols, code).1 < cols,
{
}

/// The cursor after a whole sequence of motions, applied left to right.
pub open spec fn moved_many(row: int, col: int, rows: int, cols: int, codes: Seq<KeyCode>) -> (
    int,
    int,
)
    decreases codes.len(),
{
    if codes.len() == 0 {
        (row, col)
    } else {
        let first = moved_index(row, col, rows, cols, codes[0]);
        moved_many(first.0, first.1, rows, cols, codes.drop_first())
    }
}

/// Every cursor reachable by repeated motion stays inside the grid.
pub proof fn lemma_moves_stay_in_bounds(
    row: int,
    col: int,
    rows: int,
    cols: int,
    codes: Seq<KeyCode>,
)
    requires
        0 <= row < rows,
        0 <= col < cols,
    ensures
        0 <= moved_many(row, col, rows, cols, codes).0 < rows,
        0 <= moved_many(row, col, rows, cols, codes).1 < cols,
    decreases codes.len(),
{
    if codes.len() > 0 {
        let first = moved_index(row, col, rows, cols, codes[0]);
        lemma_move_in_bounds(row, col, rows, cols, codes[0]);
        lemma_moves_stay_in_bounds(first.0, first.1, rows, cols, codes.drop_first());
    }
}

/// Motion against an edge is a no-op: Up on the first row, Down on the
/// last, Left on the first column, Right on the last.
pub proof fn lemma_boundary_clamp(row: int, col: int, rows: int, cols: int)
    requires
        0 <= row < rows,
        0 <= col < cols,
    ensures
        row == 0 ==> moved_index(row, col, rows, cols, KeyCode::Up) == (row, col),
        row == rows - 1 ==> moved_index(row, col, rows, cols, KeyCode::Down) == (row, col),
        col == 0 ==> moved_index(row, col, rows, cols, KeyCode::Left) == (row, col),
        col == cols - 1 ==> moved_index(row, col, rows, cols, KeyCode::Right) == (row, col),
{
}

/// The grid-to-field synchronization: when the selected color carries RGB
/// channels the field is overwritten with its six-digit hex text and the
/// cursor moves to end-of-text; otherwise the field keeps its prior text.
pub open spec fn synced_picker(p: PickerView) -> PickerView {
    match p.selected() {
        Some(Color::Rgb(r, g, b)) => PickerView {
            input: ColorInputView {
                input: crate::color::rgb_hex(r, g, b),
                cursor: 6,
                focused: p.input.focused,
            },
            ..p
        },
        _ => p,
    }
}

/// A synchronization from an RGB selection leaves the field holding a full,
/// valid color text.
pub proof fn lemma_sync_valid(p: PickerView)
    ensures
        p.selected() matches Some(c) && c is Rgb ==> synced_picker(p).input.valid(),
        p.input.wf() ==> synced_picker(p).input.wf(),
{
    match p.selected() {
        Some(c) => match c {
            Color::Rgb(r, g, b) => {
                crate::color::lemma_rgb_hex_wf(r, g, b);
            },
            _ => {},
        },
        None => {},
    }
}

/// The picker after the visibility toggle: the flag flips, and opening runs
/// the grid-to-field synchronization.
pub open spec fn toggled_picker(p: PickerView) -> PickerView {
    let q = PickerView { modal_state: !p.modal_state, ..p };
    if q.modal_state {
        synced_picker(q)
    } else {
        q
    }
}

/// The global key mapping, checked before anything else: `q`/`Q` always
/// quits the host, `p`/`P` always toggles the modal, and Esc quits only
/// while the modal is closed (while open it cancels, handled later).
pub open spec fn global_message(p: PickerView, key: KeyEvent) -> Option<Message> {
    match key.code {
        KeyCode::Char(c) => if c == 'q' || c == 'Q' {
            Some(Message::Quit)
        } else if c == 'p' || c == 'P' {
            Some(Message::ToggleModal)
        } else {
            None
        },
        KeyCode::Esc => if !p.modal_state {
            Some(Message::Quit)
        } else {
            None
        },
        _ => None,
    }
}

/// The action mapping while the modal is open: Tab and Shift+Tab rotate
/// focus from anywhere, Enter acts only on the focused button, and Esc
/// cancels from any focus.
pub open spec fn action_message(p: PickerView, key: KeyEvent) -> Option<Message> {
    match key.code {
        KeyCode::Tab => Some(Message::FocusNext),
        KeyCode::BackTab => Some(Message::FocusPrev),
        KeyCode::Enter => match p.focus {
            Focus::Apply => Some(Message::ApplyColor),
            Focus::Cancel => Some(Message::CancelColorSelection),
            _ => None,
        },
        KeyCode::Esc => Some(Message::CancelColorSelection),
        _ => None,
    }
}

/// The effect of one non-key message: the new picker state and whether the
/// host keeps running.
pub open spec fn apply_message(p: PickerView, m: Message) -> (PickerView, bool) {
    match m {
        Message::KeyPress(_) => (p, true),
        Message::UpdateColorFromGrid => (synced_picker(p), true),
        Message::ApplyColor => (PickerView { modal_state: false, ..p }, true),
        Message::CancelColorSelection => (PickerView { modal_state: false, ..p }, true),
        Message::ToggleModal => (toggled_picker(p), true),
        Message::FocusNext => (PickerView { focus: next_focus(p.focus), ..p }, true),
        Message::FocusPrev => (PickerView { focus: prev_focus(p.focus), ..p }, true),
        Message::Quit => (p, false),
        Message::Ignore => (p, true),
    }
}

/// The effect of one pressed key: global keys first; then, while the modal
/// is open, grid motion with its synchronization, the action mapping, and
/// finally field editing when the field has focus. Everything else is a
/// no-op.
pub open spec fn key_press_step(p: PickerView, key: KeyEvent) -> (PickerView, bool) {
    match global_message(p, key) {
        Some(m) => apply_message(p, m),
        None => if p.modal_state {
            if p.focus == Focus::Grid && is_arrow(key.code) {
                apply_message(moved_picker(p, key.code), Message::UpdateColorFromGrid)
            } else {
                match action_message(p, key) {
                    Some(m) => apply_message(p, m),
                    None => if p.focus == Focus::Input {
                        (PickerView { input: input_after_key(p.input, key), ..p }, true)
                    } else {
                        (p, true)
                    },
                }
            }
        } else {
            (p, true)
        },
    }
}

/// The effect of one message of any kind: key strokes step through
/// `key_press_step` when they are presses, and are ignored otherwise.
pub open spec fn update_step(p: PickerView, m: Message) -> (PickerView, bool) {
    match m {
        Message::KeyPress(key) => if key.kind == KeyEventKind::Press {
            key_press_step(p, key)
        } else {
            (p, true)
        },
        _ => apply_message(p, m),
    }
}

/// How often a message may re-enter the update loop, for termination: a
/// pressed key dispatches once more, everything else is handled directly.
pub open spec fn msg_rank(m: Message) -> int {
    match m {
        Message::KeyPress(key) => if key.kind == KeyEventKind::Press {
            1
        } else {
            0
        },
        _ => 0,
    }
}

/// Every step of the state machine preserves structural validity.
pub proof fn lemma_update_preserves_wf(p: PickerView, m: Message)
    requires
        p.wf(),
    ensures
        update_step(p, m).0.wf(),
{
    lemma_sync_valid(p);
    match m {
        Message::KeyPress(key) => {
            if key.kind == KeyEventKind::Press {
                lemma_key_press_preserves_wf(p, key);
            }
        },
        Message::ToggleModal => {
            lemma_sync_valid(PickerView { modal_state: !p.modal_state, ..p });
        },
        _ => {},
    }
}

/// Every pressed key preserves structural validity.
pub proof fn lemma_key_press_preserves_wf(p: PickerView, key: KeyEvent)
    requires
        p.wf(),
    ensures
        key_press_step(p, key).0.wf(),
{
    match global_message(p, key) {
        Some(m) => {
            lemma_sync_valid(PickerView { modal_state: !p.modal_state, ..p });
        },
        None => {
            if p.modal_state {
                if p.focus == Focus::Grid && is_arrow(key.code) {
                    lemma_move_in_bounds(p.row, p.col, p.rows, p.cols, key.code);
                    lemma_sync_valid(moved_picker(p, key.code));
                } else {
                    match action_message(p, key) {
                        Some(m) => {},
                        None => {
                            if p.focus == Focus::Input {
                                crate::color_input::lemma_edit_preserves_wf(p.input, key);
                            }
                        },
                    }
                }
            }
        },
    }
}

/// The private key routing table.
struct KeyHandler;

impl KeyHandler {
    /// The global keys: quit and the modal toggle.
    fn handle_global_keys(model: &Model, key: KeyEvent) -> (r: Option<Message>)
        ensures
            r == global_message(model.color_picker@, key),
    {
        match key.code {
            KeyCode::Char(c) => {
                if c == 'q' || c == 'Q' {
                    Some(Message::Quit)
                } else if c == 'p' || c == 'P' {
                    Some(Message::ToggleModal)
                } else {
                    None
                }
            },
            KeyCode::Esc => {
                if !model.color_picker.modal_state {
                    Some(Message::Quit)
                } else {
                    None
                }
            },
            _ => None,
        }
    }

    /// Grid motion: while the grid has focus, an arrow key moves the cursor
    /// and asks for the field to be re-synchronized.
    fn handle_modal_navigation(model: &mut Model, key: KeyEvent) -> (r: Option<Message>)
        requires
            old(model).color_picker@.wf(),
        ensures
            final(model).color_picker@.wf(),
            if old(model).color_picker@.focus == Focus::Grid && is_arrow(key.code) {
                final(model).color_picker@ == moved_picker(old(model).color_picker@, key.code)
                    && r == Some(Message::UpdateColorFromGrid)
            } else {
                final(model).color_picker@ == old(model).color_picker@ && r
                    == Option::<Message>::None
            },
    {
        if !matches!(model.color_picker.focus, Focus::Grid) {
            return None;
        }
        match key.code {
            KeyCode::Up | KeyCode::Down | KeyCode::Left | KeyCode::Right => {
                Self::update_grid_position(model, key.code);
                Some(Message::UpdateColorFromGrid)
            },
            _ => None,
        }
    }

    /// The open-modal action keys: focus rotation, the buttons, cancel.
    fn handle_modal_actions(model: &Model, key: KeyEvent) -> (r: Option<Message>)
        ensures
            r == action_message(model.color_picker@, key),
    {
        match key.code {
            KeyCode::Tab => Some(Message::FocusNext),
            KeyCode::BackTab => Some(Message::FocusPrev),
            KeyCode::Enter => match model.color_picker.focus {
                Focus::Apply => Some(Message::ApplyColor),
                Focus::Cancel => Some(Message::CancelColorSelection),
                _ => None,
            },
            KeyCode::Esc => Some(Message::CancelColorSelection),
            _ => None,
        }
    }

    /// Field editing: while the field has focus, every remaining key goes
    /// to it.
    fn handle_input_keys(model: &mut Model, key: KeyEvent) -> (r: bool)
        requires
            old(model).color_picker@.wf(),
        ensures
            final(model).color_picker@.wf(),
            if old(model).color_picker@.focus == Focus::Input {
                final(model).color_picker@ == (PickerView {
                    input: input_after_key(old(model).color_picker@.input, key),
                    ..old(model).color_picker@
                }) && r
            } else {
                final(model).color_picker@ == old(model).color_picker@ && !r
            },
    {
        if matches!(model.color_picker.focus, Focus::Input) {
            model.color_picker.color_input.handle_key_event(key);
            true
        } else {
            false
        }
    }

    /// Moves the grid cursor one step, clamped at the edges.
    fn update_grid_position(model: &mut Model, key_code: KeyCode)
        requires
            old(model).color_picker@.wf(),
            is_arrow(key_code),
        ensures
            final(model).color_picker@ == moved_picker(old(model).color_picker@, key_code),
            final(model).color_picker@.wf(),
    {
        proof {
            lemma_move_in_bounds(
                old(model).color_picker@.row,
                old(model).color_picker@.col,
                old(model).color_picker@.rows,
                old(model).color_picker@.cols,
                key_code,
            );
        }
        let (row0, col0) = model.color_picker.grid_index;
        let mut row = row0;
        let mut col = col0;
        let (rows, cols) = model.color_picker.grid_dimensions;
        let max_row = rows - 1;
        let max_col = cols - 1;

        match key_code {
            KeyCode::Up => {
                if row > 0 {
                    row = row - 1;
                }
            },
            KeyCode::Down => {
                if row + 1 <= max_row {
                    row = row + 1;
                } else {
                    row = max_row;
                }
            },
            KeyCode::Left => {
                if col > 0 {
                    col = col - 1;
                }
            },
            KeyCode::Right => {
                if col + 1 <= max_col {
                    col = col + 1;
                } else {
                    col = max_col;
                }
            },
            _ => {},
        }

        model.color_picker.grid_index = (row, col);
    }
}

/// Runs one message against the model and reports whether the host should
/// keep running, exactly as `update_step` describes.
pub fn update(model: &mut Model, message: Message) -> (r: bool)
    requires
        old(model).color_picker@.wf(),
    ensures
        final(model).color_picker@ == update_step(old(model).color_picker@, message).0,
        r == update_step(old(model).color_picker@, message).1,
        final(model).color_picker@.wf(),
    decreases msg_rank(message), 1int,
{
    proof {
        lemma_update_preserves_wf(old(model).color_picker@, message);
    }
    match message {
        Message::KeyPress(key) => {
            if matches!(key.kind, KeyEventKind::Press) {
                handle_key_press(model, key)
            } else {
                true
            }
        },
        Message::UpdateColorFromGrid => {
            update_color_from_grid(model);
            true
        },
        Message::ApplyColor => {
            model.color_picker.modal_state = false;
            true
        },
        Message::CancelColorSelection => {
            model.color_picker.modal_state = false;
            true
        },
        Message::ToggleModal => {
            toggle_modal(model);
            true
        },
        Message::FocusNext => {
            model.color_picker.focus_next();
            true
        },
        Message::FocusPrev => {
            model.color_picker.focus_prev();
            true
        },
        Message::Quit => false,
        Message::Ignore => true,
    }
}

/// Routes one pressed key, exactly as `key_press_step` describes.
fn handle_key_press(model: &mut Model, key: KeyEvent) -> (r: bool)
    requires
        old(model).color_picker@.wf(),
    ensures
        final(model).color_picker@ == key_press_step(old(model).color_picker@, key).0,
        r == key_press_step(old(model).color_picker@, key).1,
        final(model).color_picker@.wf(),
    decreases 0int, 2int,
{
    proof {
        lemma_key_press_preserves_wf(old(model).color_picker@, key);
    }
    if let Some(message) = KeyHandler::handle_global_keys(model, key) {
        return update(model, message);
    }

    if model.color_picker.modal_state {
        if let Some(message) = KeyHandler::handle_modal_navigation(model, key) {
            return update(model, message);
        }

        if let Some(message) = KeyHandler::handle_modal_actions(model, key) {
            return update(model, message);
        }

        if KeyHandler::handle_input_keys(model, key) {
            return true;
        }
    }

    true
}

/// Re-derives the field text from the grid selection: the single named
/// synchronization used on opening and after every grid motion.
pub fn update_color_from_grid(model: &mut Model)
    requires
        old(model).color_picker@.wf(),
    ensures
        final(model).color_picker@ == synced_picker(old(model).color_picker@),
        final(model).color_picker@.wf(),
        old(model).color_picker@.selected() matches Some(c) && c is Rgb
            ==> final(model).color_picker@.input.valid(),
{
    proof {
        lemma_sync_valid(old(model).color_picker@);
    }
    if let Some(color) = model.color_picker.selected_color() {
        match color {
            Color::Rgb(r, g, b) => {
                let digits = crate::color::rgb_hex_chars(r, g, b);
                proof {
                    crate::color::lemma_rgb_hex_wf(r, g, b);
                }
                model.color_picker.color_input.replace_all(digits);
            },
            _ => {},
        }
    }
}

/// Flips the modal's visibility; opening re-synchronizes the field so the
/// text always matches the current selection when the modal appears.
pub fn toggle_modal(model: &mut Model)
    requires
        old(model).color_picker@.wf(),
    ensures
        final(model).color_picker@ == toggled_picker(old(model).color_picker@),
        final(model).color_picker@.wf(),
{
    proof {
        lemma_sync_valid(
            PickerView {
                modal_state: !old(model).color_picker@.modal_state,
                ..old(model).color_picker@
            },
        );
    }
    model.color_picker.modal_state = !model.color_picker.modal_state;

    if model.color_picker.modal_state {
        update_color_from_grid(model);
    }
}

} // verus!
