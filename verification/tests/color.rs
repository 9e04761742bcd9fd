use rofd::color::{to_peniko, Color};

#[test]
fn rgb_maps_to_opaque_srgb() {
    let c = to_peniko(Color::Rgb(10, 20, 30));
    // peniko colors store floats; round-trip via to_rgba8 to check channels.
    let rgba = c.to_rgba8();
    assert_eq!([rgba.r, rgba.g, rgba.b, rgba.a], [10, 20, 30, 255]);
}

#[test]
fn black_is_opaque_black() {
    let c = to_peniko(Color::Rgb(0, 0, 0));
    let rgba = c.to_rgba8();
    assert_eq!([rgba.r, rgba.g, rgba.b, rgba.a], [0, 0, 0, 255]);
}

#[test]
fn to_peniko_matches_from_rgba8() {
    assert_eq!(to_peniko(Color::Rgb(1, 2, 3)), peniko::Color::from_rgba8(1, 2, 3, 255));
    assert_ne!(to_peniko(Color::Rgb(1, 2, 3)), peniko::Color::from_rgba8(1, 2, 3, 0));
}
