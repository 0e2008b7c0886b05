//! Tests of the hex field's editing operations and of the hex encoding.

use color_picker::color::Color;
use color_picker::color_input::ColorInput;
use color_picker::key::{KeyCode, KeyEvent};
use color_picker::modal::ColorPickerWidget;
use color_picker::styles::Styles;

fn field() -> ColorInput {
    ColorInput::default()
}

fn press(field: &mut ColorInput, code: KeyCode) {
    field.handle_key_event(KeyEvent::press(code));
}

fn type_str(field: &mut ColorInput, s: &str) {
    for c in s.chars() {
        press(field, KeyCode::Char(c));
    }
}

#[test]
fn insert_uppercases_and_advances() {
    let mut f = field();
    type_str(&mut f, "a1F");
    assert_eq!(f.value(), "A1F");
    assert_eq!(f.cursor_pos, 3);
}

#[test]
fn insert_rejects_non_hex() {
    let mut f = field();
    type_str(&mut f, "G!z ");
    assert_eq!(f.value(), "");
    assert_eq!(f.cursor_pos, 0);
}

#[test]
fn insert_rejects_when_full() {
    let mut f = field();
    type_str(&mut f, "123456");
    assert_eq!(f.value(), "123456");
    type_str(&mut f, "7");
    assert_eq!(f.value(), "123456");
    assert_eq!(f.cursor_pos, 6);
}

#[test]
fn backspace_removes_before_cursor() {
    let mut f = field();
    type_str(&mut f, "ABC");
    press(&mut f, KeyCode::Backspace);
    assert_eq!(f.value(), "AB");
    assert_eq!(f.cursor_pos, 2);
}

#[test]
fn backspace_at_start_is_noop() {
    let mut f = field();
    type_str(&mut f, "AB");
    press(&mut f, KeyCode::Home);
    press(&mut f, KeyCode::Backspace);
    assert_eq!(f.value(), "AB");
    assert_eq!(f.cursor_pos, 0);
}

#[test]
fn delete_removes_at_cursor_without_moving() {
    let mut f = field();
    type_str(&mut f, "ABC");
    press(&mut f, KeyCode::Home);
    press(&mut f, KeyCode::Delete);
    assert_eq!(f.value(), "BC");
    assert_eq!(f.cursor_pos, 0);
}

#[test]
fn delete_at_end_is_noop() {
    let mut f = field();
    type_str(&mut f, "AB");
    press(&mut f, KeyCode::Delete);
    assert_eq!(f.value(), "AB");
    assert_eq!(f.cursor_pos, 2);
}

#[test]
fn cursor_moves_clamp_at_edges() {
    let mut f = field();
    type_str(&mut f, "12");
    press(&mut f, KeyCode::Right);
    assert_eq!(f.cursor_pos, 2);
    press(&mut f, KeyCode::Left);
    press(&mut f, KeyCode::Left);
    assert_eq!(f.cursor_pos, 0);
    press(&mut f, KeyCode::Left);
    assert_eq!(f.cursor_pos, 0);
    press(&mut f, KeyCode::Right);
    assert_eq!(f.cursor_pos, 1);
}

#[test]
fn insert_at_cursor_in_middle() {
    let mut f = field();
    type_str(&mut f, "AC");
    press(&mut f, KeyCode::Left);
    type_str(&mut f, "B");
    assert_eq!(f.value(), "ABC");
    assert_eq!(f.cursor_pos, 2);
}

#[test]
fn is_valid_needs_exactly_six_digits() {
    let mut f = field();
    assert!(!f.is_valid());
    type_str(&mut f, "12345");
    assert!(!f.is_valid());
    type_str(&mut f, "6");
    assert!(f.is_valid());
}

#[test]
fn replace_all_sets_text_and_cursor() {
    let mut f = field();
    type_str(&mut f, "AB");
    f.replace_all(vec!['0', '0', 'F', 'F', '0', '0']);
    assert_eq!(f.value(), "00FF00");
    assert_eq!(f.cursor_pos, 6);
    assert!(f.is_valid());
}

#[test]
fn cursor_position_offsets_from_area_origin() {
    let mut f = field();
    type_str(&mut f, "ABC");
    assert_eq!(f.cursor_position(10, 4), (13, 4));
    press(&mut f, KeyCode::Home);
    assert_eq!(f.cursor_position(10, 4), (10, 4));
}

#[test]
fn color_to_hex_exact_values() {
    assert_eq!(
        ColorPickerWidget::color_to_hex(Color::Rgb(255, 0, 0)),
        Some("FF0000".to_string())
    );
    assert_eq!(
        ColorPickerWidget::color_to_hex(Color::Rgb(0x33, 0x66, 0x99)),
        Some("336699".to_string())
    );
    assert_eq!(
        ColorPickerWidget::color_to_hex(Color::Rgb(0, 0, 0)),
        Some("000000".to_string())
    );
    assert_eq!(
        ColorPickerWidget::color_to_hex(Color::Rgb(255, 255, 255)),
        Some("FFFFFF".to_string())
    );
    assert_eq!(
        ColorPickerWidget::color_to_hex(Color::Rgb(0x0A, 0xBC, 0xDE)),
        Some("0ABCDE".to_string())
    );
}

#[test]
fn color_to_hex_absent_for_symbolic_colors() {
    assert_eq!(ColorPickerWidget::color_to_hex(Color::Cyan), None);
    assert_eq!(ColorPickerWidget::color_to_hex(Color::Reset), None);
    assert_eq!(ColorPickerWidget::color_to_hex(Color::Indexed(7)), None);
}

#[test]
fn hex_round_trips_through_parsing() {
    let triples = [
        (0u8, 0u8, 0u8),
        (255, 255, 255),
        (255, 0, 0),
        (0x12, 0x34, 0x56),
        (0x0F, 0xF0, 0x7E),
    ];
    for (r, g, b) in triples {
        let hex = ColorPickerWidget::color_to_hex(Color::Rgb(r, g, b)).unwrap();
        assert_eq!(hex.len(), 6);
        let r2 = u8::from_str_radix(&hex[0..2], 16).unwrap();
        let g2 = u8::from_str_radix(&hex[2..4], 16).unwrap();
        let b2 = u8::from_str_radix(&hex[4..6], 16).unwrap();
        assert_eq!((r2, g2, b2), (r, g, b));
    }
}

#[test]
fn style_policy_table() {
    assert_eq!(Styles::border_color(true, None), Color::Cyan);
    assert_eq!(Styles::border_color(true, Some(false)), Color::Cyan);
    assert_eq!(Styles::border_color(false, Some(true)), Color::Green);
    assert_eq!(Styles::border_color(false, Some(false)), Color::Red);
    assert_eq!(Styles::border_color(false, None), Color::Reset);
    assert_eq!(
        Styles::button_colors(true),
        (Color::Blue, Color::White)
    );
    assert_eq!(
        Styles::button_colors(false),
        (Color::DarkGray, Color::Gray)
    );
    assert_eq!(Styles::modal_background(), Color::DarkGray);
    assert_eq!(Styles::focus_border(true), Color::Cyan);
    assert_eq!(Styles::focus_border(false), Color::Reset);
}
