//! Host input vocabulary and the parsing of host-facing strings: key names,
//! tool names, cursor names, `#RRGGBB` colors, mouse button codes and
//! scroll directions. Hosts (the web SDK, native shells) hand these plain
//! strings and codes to the editor.

use vstd::prelude::*;

use crate::annotation::{AnnotationKind, ShapeKind};
use crate::color::Color;

verus! {

/// A logical key the editor reacts to.
#[derive(Debug, Clone, Copy, PartialEq, Eq, Structural)]
pub enum Key {
    Enter,
    Backspace,
    Delete,
    Tab,
    Escape,
    ArrowLeft,
    ArrowRight,
    ArrowUp,
    ArrowDown,
    Home,
    End,
    PageUp,
    PageDown,
    Char(char),
    Unidentified,
}

/// The active editing tool.
#[derive(Debug, Clone, Copy, PartialEq, Eq, Structural)]
pub enum Tool {
    Select,
    TextSelect,
    Hand,
    Create(AnnotationKind),
}

/// The pointer cursor the editor requests from its host.
#[derive(Debug, Clone, Copy, PartialEq, Eq, Structural)]
pub enum PointerCursor {
    Default,
    Grab,
    Grabbing,
    Text,
}

/// A mouse button as the editor distinguishes them.
#[derive(Debug, Clone, Copy, PartialEq, Eq, Structural)]
pub enum MouseButton {
    Left,
    Middle,
    Right,
}

/// Direction of a one-page scroll.
#[derive(Debug, Clone, Copy, PartialEq, Eq, Structural)]
pub enum ScrollDirection {
    Up,
    Down,
}

/// Keyboard modifier state.
#[derive(Debug, Clone, Copy, PartialEq, Eq, Default, Structural)]
pub struct Modifiers {
    pub shift: bool,
    pub control: bool,
    pub alt: bool,
    pub meta: bool,
}

// ---------------------------------------------------------------------------
// Strings
// ---------------------------------------------------------------------------

/// Whether two strings hold the same chars.
fn str_eq(a: &str, b: &str) -> (r: bool)
    ensures
        r == (a@ == b@),
{
    let n = a.unicode_len();
    let m = b.unicode_len();
    if n != m {
        return false;
    }
    let mut i: usize = 0;
    while i < n
        invariant
            n == a@.len(),
            m == b@.len(),
            n == m,
            i <= n,
            forall|j: int| 0 <= j < i ==> a@[j] == b@[j],
        decreases n - i,
    {
        if a.get_char(i) != b.get_char(i) {
            return false;
        }
        i += 1;
    }
    proof {
        assert(a@ =~= b@);
    }
    true
}

// ---------------------------------------------------------------------------
// Keys
// ---------------------------------------------------------------------------

/// The key a JS `KeyboardEvent.key` string names: named keys map directly,
/// a single char maps to [`Key::Char`], anything else is unidentified.
pub open spec fn key_of(s: Seq<char>) -> Key {
    if s == "Enter"@ {
        Key::Enter
    } else if s == "Backspace"@ {
        Key::Backspace
    } else if s == "Delete"@ {
        Key::Delete
    } else if s == "Tab"@ {
        Key::Tab
    } else if s == "Escape"@ {
        Key::Escape
    } else if s == "ArrowLeft"@ {
        Key::ArrowLeft
    } else if s == "ArrowRight"@ {
        Key::ArrowRight
    } else if s == "ArrowUp"@ {
        Key::ArrowUp
    } else if s == "ArrowDown"@ {
        Key::ArrowDown
    } else if s == "Home"@ {
        Key::Home
    } else if s == "End"@ {
        Key::End
    } else if s == "PageUp"@ {
        Key::PageUp
    } else if s == "PageDown"@ {
        Key::PageDown
    } else if s.len() == 1 {
        Key::Char(s[0])
    } else {
        Key::Unidentified
    }
}

/// Convert a JS `KeyboardEvent.key` string into a [`Key`]. Named keys
/// (`"Enter"`, `"ArrowLeft"`, ...) map directly; single-character strings
/// map to [`Key::Char`]; everything else is [`Key::Unidentified`].
pub fn parse_key(s: &str) -> (k: Key)
    ensures
        k == key_of(s@),
{
    if str_eq(s, "Enter") {
        Key::Enter
    } else if str_eq(s, "Backspace") {
        Key::Backspace
    } else if str_eq(s, "Delete") {
        Key::Delete
    } else if str_eq(s, "Tab") {
        Key::Tab
    } else if str_eq(s, "Escape") {
        Key::Escape
    } else if str_eq(s, "ArrowLeft") {
        Key::ArrowLeft
    } else if str_eq(s, "ArrowRight") {
        Key::ArrowRight
    } else if str_eq(s, "ArrowUp") {
        Key::ArrowUp
    } else if str_eq(s, "ArrowDown") {
        Key::ArrowDown
    } else if str_eq(s, "Home") {
        Key::Home
    } else if str_eq(s, "End") {
        Key::End
    } else if str_eq(s, "PageUp") {
        Key::PageUp
    } else if str_eq(s, "PageDown") {
        Key::PageDown
    } else if s.unicode_len() == 1 {
        Key::Char(s.get_char(0))
    } else {
        Key::Unidentified
    }
}

/// The character key a text-producing key event carries: its first char,
/// or none for empty text.
pub fn char_key(text: &str) -> (k: Option<Key>)
    ensures
        match k {
            Some(key) => text@.len() > 0 && key == Key::Char(text@[0]),
            None => text@.len() == 0,
        },
{
    if text.unicode_len() == 0 {
        None
    } else {
        Some(Key::Char(text.get_char(0)))
    }
}


/// Whether a key-down is the copy shortcut: Ctrl (or Cmd) with the `c` or
/// `x` character key in either case (`x` copies too: the document body is
/// read-only, so there is nothing to cut).
pub open spec fn is_copy_key(ctrl: bool, character: Option<Seq<char>>) -> bool {
    ctrl && match character {
        Some(s) => s == "c"@ || s == "C"@ || s == "x"@ || s == "X"@,
        None => false,
    }
}

/// Decide whether a key-down with the given modifier state and character
/// (none for named keys) is intercepted as the clipboard copy shortcut.
pub fn is_copy_shortcut(ctrl: bool, character: Option<&str>) -> (b: bool)
    ensures
        b == is_copy_key(ctrl, match character {
            Some(s) => Some(s@),
            None => None,
        }),
{
    if !ctrl {
        return false;
    }
    match character {
        Some(s) => str_eq(s, "c") || str_eq(s, "C") || str_eq(s, "x") || str_eq(s, "X"),
        None => false,
    }
}

// ---------------------------------------------------------------------------
// Tools and cursors
// ---------------------------------------------------------------------------

/// The tool a JS-friendly tool-kind string names; unknown strings (matching
/// is case-sensitive) select [`Tool::Select`].
pub open spec fn tool_of(s: Seq<char>) -> Tool {
    if s == "select"@ {
        Tool::Select
    } else if s == "textSelect"@ {
        Tool::TextSelect
    } else if s == "hand"@ {
        Tool::Hand
    } else if s == "highlight"@ {
        Tool::Create(AnnotationKind::Highlight)
    } else if s == "underline"@ {
        Tool::Create(AnnotationKind::Underline)
    } else if s == "strikeout"@ {
        Tool::Create(AnnotationKind::Strikeout)
    } else if s == "squiggly"@ {
        Tool::Create(AnnotationKind::Squiggly)
    } else if s == "freehand"@ {
        Tool::Create(AnnotationKind::Freehand)
    } else if s == "rect"@ {
        Tool::Create(AnnotationKind::Shape(ShapeKind::Rect))
    } else {
        Tool::Select
    }
}

/// Map a JS-friendly tool-kind string to a [`Tool`]: hand / select /
/// textSelect / highlight / underline / strikeout / squiggly / freehand /
/// rect. Unknown strings fall back to [`Tool::Select`].
pub fn parse_tool_kind(kind: &str) -> (t: Tool)
    ensures
        t == tool_of(kind@),
{
    if str_eq(kind, "select") {
        Tool::Select
    } else if str_eq(kind, "textSelect") {
        Tool::TextSelect
    } else if str_eq(kind, "hand") {
        Tool::Hand
    } else if str_eq(kind, "highlight") {
        Tool::Create(AnnotationKind::Highlight)
    } else if str_eq(kind, "underline") {
        Tool::Create(AnnotationKind::Underline)
    } else if str_eq(kind, "strikeout") {
        Tool::Create(AnnotationKind::Strikeout)
    } else if str_eq(kind, "squiggly") {
        Tool::Create(AnnotationKind::Squiggly)
    } else if str_eq(kind, "freehand") {
        Tool::Create(AnnotationKind::Freehand)
    } else if str_eq(kind, "rect") {
        Tool::Create(AnnotationKind::Shape(ShapeKind::Rect))
    } else {
        Tool::Select
    }
}

/// The CSS cursor name of a pointer cursor.
pub open spec fn cursor_name(c: PointerCursor) -> Seq<char> {
    match c {
        PointerCursor::Default => "default"@,
        PointerCursor::Grab => "grab"@,
        PointerCursor::Grabbing => "grabbing"@,
        PointerCursor::Text => "text"@,
    }
}

/// Map a [`PointerCursor`] to its JS-facing string, a valid CSS cursor
/// name the host can assign straight to `canvas.style.cursor`.
pub fn pointer_cursor_str(c: PointerCursor) -> (s: &'static str)
    ensures
        s@ == cursor_name(c),
{
    match c {
        PointerCursor::Default => "default",
        PointerCursor::Grab => "grab",
        PointerCursor::Grabbing => "grabbing",
        PointerCursor::Text => "text",
    }
}

/// The pointer cursor a CSS cursor name names, if any: the inverse of
/// [`pointer_cursor_str`].
pub open spec fn cursor_named(s: Seq<char>) -> Option<PointerCursor> {
    if s == cursor_name(PointerCursor::Default) {
        Some(PointerCursor::Default)
    } else if s == cursor_name(PointerCursor::Grab) {
        Some(PointerCursor::Grab)
    } else if s == cursor_name(PointerCursor::Grabbing) {
        Some(PointerCursor::Grabbing)
    } else if s == cursor_name(PointerCursor::Text) {
        Some(PointerCursor::Text)
    } else {
        None
    }
}

/// Distinct cursors have distinct CSS names, so the host can map a name back
/// to the cursor it stands for.
pub proof fn lemma_cursor_names_distinct(c: PointerCursor)
    ensures
        cursor_named(cursor_name(c)) == Some(c),
{
    reveal_strlit("default");
    reveal_strlit("grab");
    reveal_strlit("grabbing");
    reveal_strlit("text");
    assert("default"@[0] != "grab"@[0]);
    assert("default"@[0] != "grabbing"@[0]);
    assert("default"@ != "grab"@);
    assert("default"@ != "grabbing"@);
    assert("default"@ != "text"@);
    assert("grab"@.len() != "grabbing"@.len());
    assert("grab"@ != "grabbing"@);
    assert("grab"@ != "text"@);
    assert("grabbing"@ != "text"@);
}

// ---------------------------------------------------------------------------
// Colors
// ---------------------------------------------------------------------------

/// The value of a hexadecimal digit (either case).
pub open spec fn hex_digit(c: char) -> Option<u8> {
    if '0' <= c && c <= '9' {
        Some((c as u32 - '0' as u32) as u8)
    } else if 'a' <= c && c <= 'f' {
        Some((c as u32 - 'a' as u32 + 10) as u8)
    } else if 'A' <= c && c <= 'F' {
        Some((c as u32 - 'A' as u32 + 10) as u8)
    } else {
        None
    }
}

/// The byte two hex digits `a b` spell (high digit first); none unless both
/// are hex digits.
pub open spec fn hex_byte(a: char, b: char) -> Option<u8> {
    match (hex_digit(a), hex_digit(b)) {
        (Some(hi), Some(lo)) => Some((hi * 16 + lo) as u8),
        _ => None,
    }
}

/// The color a `"#RRGGBB"` string names; anything else is black.
pub open spec fn color_of(s: Seq<char>) -> Color {
    if s.len() == 7 && s[0] == '#' {
        match (hex_byte(s[1], s[2]), hex_byte(s[3], s[4]), hex_byte(s[5], s[6])) {
            (Some(r), Some(g), Some(b)) => Color::Rgb(r, g, b),
            _ => Color::Rgb(0, 0, 0),
        }
    } else {
        Color::Rgb(0, 0, 0)
    }
}

/// Hex digits have their usual values: `0`-`9` are 0-9, `a`-`f` and `A`-`F`
/// are 10-15 in either case, and no other char is a hex digit.
pub proof fn lemma_hex_digit_values(c: char)
    ensures
        '0' <= c <= '9' ==> hex_digit(c) == Some((c as u32 - 48) as u8),
        'a' <= c <= 'f' ==> hex_digit(c) == Some((c as u32 - 87) as u8),
        'A' <= c <= 'F' ==> hex_digit(c) == Some((c as u32 - 55) as u8),
        !('0' <= c <= '9') && !('a' <= c <= 'f') && !('A' <= c <= 'F') ==> hex_digit(c) is None,
        hex_digit(c) matches Some(d) ==> d < 16,
{
}

/// A `"#RRGGBB"` string names the three bytes its digit pairs spell, high
/// digit first; a string with any other shape, or with a non-hex char among
/// the six, names black.
pub proof fn lemma_color_of_digits(s: Seq<char>)
    ensures
        s.len() == 7 && s[0] == '#' && (forall|i: int| 1 <= i < 7 ==> hex_digit(#[trigger] s[i])
            is Some) ==> color_of(s) == Color::Rgb(
            (hex_digit(s[1])->0 * 16 + hex_digit(s[2])->0) as u8,
            (hex_digit(s[3])->0 * 16 + hex_digit(s[4])->0) as u8,
            (hex_digit(s[5])->0 * 16 + hex_digit(s[6])->0) as u8,
        ),
        s.len() != 7 || s[0] != '#' || (exists|i: int| 1 <= i < 7 && hex_digit(#[trigger] s[i])
            is None) ==> color_of(s) == Color::Rgb(0, 0, 0),
{
    if s.len() == 7 && s[0] == '#' {
        if exists|i: int| 1 <= i < 7 && hex_digit(#[trigger] s[i]) is None {
            let i = choose|i: int| 1 <= i < 7 && hex_digit(#[trigger] s[i]) is None;
            assert(i == 1 || i == 2 || i == 3 || i == 4 || i == 5 || i == 6);
        } else {
            assert(hex_digit(s[1]) is Some && hex_digit(s[2]) is Some);
            assert(hex_digit(s[3]) is Some && hex_digit(s[4]) is Some);
            assert(hex_digit(s[5]) is Some && hex_digit(s[6]) is Some);
        }
    }
}

fn parse_hex_digit(c: char) -> (d: Option<u8>)
    ensures
        d == hex_digit(c),
{
    if '0' <= c && c <= '9' {
        Some((c as u32 - '0' as u32) as u8)
    } else if 'a' <= c && c <= 'f' {
        Some((c as u32 - 'a' as u32 + 10) as u8)
    } else if 'A' <= c && c <= 'F' {
        Some((c as u32 - 'A' as u32 + 10) as u8)
    } else {
        None
    }
}

fn parse_hex_byte(a: char, b: char) -> (v: Option<u8>)
    ensures
        v == hex_byte(a, b),
{
    match (parse_hex_digit(a), parse_hex_digit(b)) {
        (Some(hi), Some(lo)) => Some(hi * 16 + lo),
        _ => None,
    }
}

proof fn lemma_hex_byte_ascii(a: char, b: char)
    requires
        hex_byte(a, b) is Some,
    ensures
        a <= '\u{7f}',
        b <= '\u{7f}',
{
}

/// Parse a JS-facing color string (`"#RRGGBB"`, case-insensitive hex) into
/// a [`Color`]. Any invalid shape or hex digit falls back to black.
pub fn parse_color(s: &str) -> (c: Color)
    ensures
        c == color_of(s@),
{
    if !s.is_ascii() {
        proof {
            if s@.len() == 7 && s@[0] == '#' {
                let i = choose|i: int| 0 <= i < s@.len() && !('\0' <= #[trigger] s@[i] <= '\u{7f}');
                if hex_byte(s@[1], s@[2]) is Some {
                    lemma_hex_byte_ascii(s@[1], s@[2]);
                }
                if hex_byte(s@[3], s@[4]) is Some {
                    lemma_hex_byte_ascii(s@[3], s@[4]);
                }
                if hex_byte(s@[5], s@[6]) is Some {
                    lemma_hex_byte_ascii(s@[5], s@[6]);
                }
                assert(i != 0);
            }
        }
        return Color::Rgb(0, 0, 0);
    }
    if s.unicode_len() != 7 || s.get_char(0) != '#' {
        return Color::Rgb(0, 0, 0);
    }
    let r = parse_hex_byte(s.get_char(1), s.get_char(2));
    let g = parse_hex_byte(s.get_char(3), s.get_char(4));
    let b = parse_hex_byte(s.get_char(5), s.get_char(6));
    match (r, g, b) {
        (Some(r), Some(g), Some(b)) => Color::Rgb(r, g, b),
        _ => Color::Rgb(0, 0, 0),
    }
}

// ---------------------------------------------------------------------------
// Mouse buttons and scrolling
// ---------------------------------------------------------------------------

/// The mouse button a DOM `MouseEvent.button` code names; unknown codes are
/// treated as the left button.
pub open spec fn button_of(code: u32) -> MouseButton {
    if code == 1 {
        MouseButton::Middle
    } else if code == 2 {
        MouseButton::Right
    } else {
        MouseButton::Left
    }
}

/// Map a DOM `MouseEvent.button` code to a [`MouseButton`]: 0 left, 1
/// middle, 2 right, anything else left.
pub fn parse_mouse_button(button: u32) -> (b: MouseButton)
    ensures
        b == button_of(button),
{
    match button {
        0 => MouseButton::Left,
        1 => MouseButton::Middle,
        2 => MouseButton::Right,
        _ => MouseButton::Left,
    }
}

/// ASCII lowercase of a char (other chars unchanged).
pub open spec fn ascii_lower(c: char) -> char {
    if 'A' <= c && c <= 'Z' {
        ((c as u32) + 32) as char
    } else {
        c
    }
}

/// The scroll direction a host string names: `"up"` in any ASCII case is up,
/// anything else is down.
pub open spec fn direction_of(s: Seq<char>) -> ScrollDirection {
    if s.len() == 2 && ascii_lower(s[0]) == 'u' && ascii_lower(s[1]) == 'p' {
        ScrollDirection::Up
    } else {
        ScrollDirection::Down
    }
}

/// Parse a page-scroll direction: `"up"` (ASCII case-insensitive) scrolls
/// up; any other value scrolls down, toward the end of the document.
pub fn scroll_direction(direction: &str) -> (d: ScrollDirection)
    ensures
        d == direction_of(direction@),
{
    if direction.unicode_len() == 2 {
        let c0 = direction.get_char(0);
        let c1 = direction.get_char(1);
        if (c0 == 'u' || c0 == 'U') && (c1 == 'p' || c1 == 'P') {
            return ScrollDirection::Up;
        }
    }
    ScrollDirection::Down
}

} // verus!
