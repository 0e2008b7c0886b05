//! State machine of a modal terminal color picker: a palette grid with a
//! bounded cursor, a hex-digit text field, a four-way focus ring, and the
//! controller that routes key events and keeps the field in sync with the
//! grid selection.

pub mod color;
pub mod color_input;
pub mod controller;
pub mod key;
pub mod modal;
pub mod styles;
