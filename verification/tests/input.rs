use rofd::annotation::{AnnotationKind, ShapeKind};
use rofd::color::Color;
use rofd::input::{
    char_key, is_copy_shortcut, parse_color, parse_key, parse_mouse_button, parse_tool_kind,
    pointer_cursor_str, scroll_direction, Key, MouseButton, PointerCursor, ScrollDirection, Tool,
};

#[test]
fn parse_key_single_char() {
    assert_eq!(parse_key("a"), Key::Char('a'));
    assert_eq!(parse_key("Z"), Key::Char('Z'));
}

#[test]
fn parse_key_named() {
    assert_eq!(parse_key("Enter"), Key::Enter);
    assert_eq!(parse_key("Backspace"), Key::Backspace);
    assert_eq!(parse_key("ArrowLeft"), Key::ArrowLeft);
    assert_eq!(parse_key("Escape"), Key::Escape);
}

#[test]
fn parse_key_unknown() {
    assert_eq!(parse_key("F1"), Key::Unidentified);
    assert_eq!(parse_key(""), Key::Unidentified);
}

#[test]
fn parse_key_every_named_key_and_unicode_char() {
    let table = [
        ("Enter", Key::Enter),
        ("Backspace", Key::Backspace),
        ("Delete", Key::Delete),
        ("Tab", Key::Tab),
        ("Escape", Key::Escape),
        ("ArrowLeft", Key::ArrowLeft),
        ("ArrowRight", Key::ArrowRight),
        ("ArrowUp", Key::ArrowUp),
        ("ArrowDown", Key::ArrowDown),
        ("Home", Key::Home),
        ("End", Key::End),
        ("PageUp", Key::PageUp),
        ("PageDown", Key::PageDown),
    ];
    for (s, k) in table {
        assert_eq!(parse_key(s), k, "{s}");
    }
    // One char, several UTF-8 bytes.
    assert_eq!(parse_key("中"), Key::Char('中'));
    assert_eq!(parse_key("enter"), Key::Unidentified);
    assert_eq!(char_key("xy"), Some(Key::Char('x')));
    assert_eq!(char_key(""), None);
}

#[test]
fn parse_tool_kind_select() {
    assert_eq!(parse_tool_kind("select"), Tool::Select);
}

#[test]
fn parse_tool_kind_markup_variants() {
    assert_eq!(parse_tool_kind("highlight"), Tool::Create(AnnotationKind::Highlight));
    assert_eq!(parse_tool_kind("underline"), Tool::Create(AnnotationKind::Underline));
    assert_eq!(parse_tool_kind("strikeout"), Tool::Create(AnnotationKind::Strikeout));
    assert_eq!(parse_tool_kind("squiggly"), Tool::Create(AnnotationKind::Squiggly));
}

#[test]
fn parse_tool_kind_freehand_and_rect() {
    assert_eq!(parse_tool_kind("freehand"), Tool::Create(AnnotationKind::Freehand));
    assert_eq!(
        parse_tool_kind("rect"),
        Tool::Create(AnnotationKind::Shape(ShapeKind::Rect))
    );
}

#[test]
fn parse_tool_kind_unknown_falls_back_to_select() {
    assert_eq!(parse_tool_kind("unknown"), Tool::Select);
    assert_eq!(parse_tool_kind(""), Tool::Select);
    assert_eq!(parse_tool_kind("SELECT"), Tool::Select); // case-sensitive
}

#[test]
fn parse_tool_kind_hand() {
    assert_eq!(parse_tool_kind("hand"), Tool::Hand);
}

#[test]
fn parse_tool_kind_text_select() {
    assert_eq!(parse_tool_kind("textSelect"), Tool::TextSelect);
    assert_eq!(parse_tool_kind("select"), Tool::Select);
}

#[test]
fn parse_color_hex_rrggbb() {
    assert_eq!(parse_color("#ff0000"), Color::Rgb(255, 0, 0));
    assert_eq!(parse_color("#00ff00"), Color::Rgb(0, 255, 0));
    assert_eq!(parse_color("#102030"), Color::Rgb(16, 32, 48));
}

#[test]
fn parse_color_invalid_falls_back_to_black() {
    assert_eq!(parse_color("red"), Color::Rgb(0, 0, 0));
    assert_eq!(parse_color("#fff"), Color::Rgb(0, 0, 0));
    assert_eq!(parse_color("#gg0000"), Color::Rgb(0, 0, 0));
    assert_eq!(parse_color(""), Color::Rgb(0, 0, 0));
    // Multi-byte UTF-8 must not panic the hex slicing.
    assert_eq!(parse_color("#é0000"), Color::Rgb(0, 0, 0));
}

#[test]
fn parse_color_edge_cases() {
    assert_eq!(parse_color("#ABcdEf"), Color::Rgb(0xAB, 0xCD, 0xEF));
    assert_eq!(parse_color("#FFFFFF"), Color::Rgb(255, 255, 255));
    // A sign is not a hex digit.
    assert_eq!(parse_color("#+f0000"), Color::Rgb(0, 0, 0));
    assert_eq!(parse_color("#+f+f+f"), Color::Rgb(0, 0, 0));
    assert_eq!(parse_color("#-f0000"), Color::Rgb(0, 0, 0));
    assert_eq!(parse_color("ff00000"), Color::Rgb(0, 0, 0));
    assert_eq!(parse_color("#ff00000"), Color::Rgb(0, 0, 0));
    assert_eq!(parse_color("#ff00é"), Color::Rgb(0, 0, 0));
    assert_eq!(Color::default(), Color::Rgb(0, 0, 0));
    assert_eq!(Color::black(), Color::default());
}

#[test]
fn pointer_cursor_str_maps_to_css_names() {
    assert_eq!(pointer_cursor_str(PointerCursor::Default), "default");
    assert_eq!(pointer_cursor_str(PointerCursor::Grab), "grab");
    assert_eq!(pointer_cursor_str(PointerCursor::Grabbing), "grabbing");
    assert_eq!(pointer_cursor_str(PointerCursor::Text), "text");
}

#[test]
fn mouse_buttons_and_scroll_directions() {
    assert_eq!(parse_mouse_button(0), MouseButton::Left);
    assert_eq!(parse_mouse_button(1), MouseButton::Middle);
    assert_eq!(parse_mouse_button(2), MouseButton::Right);
    assert_eq!(parse_mouse_button(3), MouseButton::Left);
    assert_eq!(scroll_direction("up"), ScrollDirection::Up);
    assert_eq!(scroll_direction("UP"), ScrollDirection::Up);
    assert_eq!(scroll_direction("uP"), ScrollDirection::Up);
    assert_eq!(scroll_direction("down"), ScrollDirection::Down);
    assert_eq!(scroll_direction("upward"), ScrollDirection::Down);
    assert_eq!(scroll_direction(""), ScrollDirection::Down);
}

#[test]
fn copy_shortcut_needs_ctrl_and_c_or_x() {
    assert!(is_copy_shortcut(true, Some("c")));
    assert!(is_copy_shortcut(true, Some("C")));
    assert!(is_copy_shortcut(true, Some("x")));
    assert!(is_copy_shortcut(true, Some("X")));
    assert!(!is_copy_shortcut(false, Some("c")));
    assert!(!is_copy_shortcut(true, Some("v")));
    assert!(!is_copy_shortcut(true, Some("cc")));
    assert!(!is_copy_shortcut(true, None));
}
