//! The style policy table: pure functions from state flags to colors,
//! consumed only by the presenter. The presenter turns these colors into
//! terminal styles; no mutating operation ever reads them.

use vstd::prelude::*;

use crate::color::Color;

verus! {

/// Namespace for the style policy.
pub struct Styles;

impl Styles {
    /// Border color of the hex field: cyan while focused; otherwise green
    /// for a valid value, red for an invalid one, and the terminal default
    /// when validity is not reported.
    pub fn border_color(focused: bool, is_valid: Option<bool>) -> (r: Color)
        ensures
            focused ==> r == Color::Cyan,
            !focused && is_valid == Some(true) ==> r == Color::Green,
            !focused && is_valid == Some(false) ==> r == Color::Red,
            !focused && is_valid is None ==> r == Color::Reset,
    {
        match (focused, is_valid) {
            (true, _) => Color::Cyan,
            (false, Some(true)) => Color::Green,
            (false, Some(false)) => Color::Red,
            (false, None) => Color::Reset,
        }
    }

    /// Background and foreground of a button by selection state.
    pub fn button_colors(selected: bool) -> (r: (Color, Color))
        ensures
            selected ==> r == (Color::Blue, Color::White),
            !selected ==> r == (Color::DarkGray, Color::Gray),
    {
        if selected {
            (Color::Blue, Color::White)
        } else {
            (Color::DarkGray, Color::Gray)
        }
    }

    /// Background color of the modal surface.
    pub fn modal_background() -> (r: Color)
        ensures
            r == Color::DarkGray,
    {
        Color::DarkGray
    }

    /// Border color of a focusable region.
    pub fn focus_border(focused: bool) -> (r: Color)
        ensures
            focused ==> r == Color::Cyan,
            !focused ==> r == Color::Reset,
    {
        if focused {
            Color::Cyan
        } else {
            Color::Reset
        }
    }
}

} // verus!
