//! Document colors and their conversion to `peniko` brushes.

use vstd::prelude::*;

verus! {

/// An OFD body/annotation color. v1 documents carry opaque RGB only.
#[derive(Debug, Clone, Copy, PartialEq, Eq, Structural)]
pub enum Color {
    Rgb(u8, u8, u8),
}

impl Color {
    /// The default color: opaque black.
    pub fn black() -> (c: Color)
        ensures
            c == Color::Rgb(0, 0, 0),
    {
        Color::Rgb(0, 0, 0)
    }
}

impl Default for Color {
    fn default() -> (c: Color)
        ensures
            c == Color::Rgb(0, 0, 0),
    {
        Color::Rgb(0, 0, 0)
    }
}

#[verifier::external_type_specification]
#[verifier::external_body]
#[verifier::reject_recursive_types(CS)]
pub struct ExAlphaColor<CS>(peniko::color::AlphaColor<CS>);

#[verifier::external_type_specification]
#[verifier::external_body]
pub struct ExSrgb(peniko::color::Srgb);

/// The `peniko` color built from 8-bit sRGB components `r, g, b, a`.
pub uninterp spec fn rgba8_color(r: u8, g: u8, b: u8, a: u8) -> peniko::Color;

/// Calls `peniko::Color::from_rgba8`; its result is named [`rgba8_color`] of
/// the four components (the conversion is a pure function of them).
#[verifier::external_body]
pub(crate) fn rgba8(r: u8, g: u8, b: u8, a: u8) -> (c: peniko::Color)
    ensures
        c == rgba8_color(r, g, b, a),
{
    peniko::Color::from_rgba8(r, g, b, a)
}

/// Convert an OFD color to an opaque `peniko` sRGB color (alpha 255).
pub fn to_peniko(c: Color) -> (p: peniko::Color)
    ensures
        match c {
            Color::Rgb(r, g, b) => p == rgba8_color(r, g, b, 255),
        },
{
    match c {
        Color::Rgb(r, g, b) => rgba8(r, g, b, 255),
    }
}

} // verus!
