use voxrender::color::colour;

#[test]
fn colour_unpacks_little_endian() {
    // packed as r | g << 8 | b << 16 | a << 24
    let palette: Vec<u32> = vec![0x44332211];
    assert_eq!(colour(&palette, 1, 0), (0x11, 0x22, 0x33, 0x44));
}

#[test]
fn colour_zero_darken_is_identity() {
    let palette: Vec<u32> = vec![0xFF0000FF, 0xFF00FF00, 0x80808080];
    assert_eq!(colour(&palette, 1, 0), (0xFF, 0x00, 0x00, 0xFF));
    assert_eq!(colour(&palette, 2, 0), (0x00, 0xFF, 0x00, 0xFF));
    assert_eq!(colour(&palette, 3, 0), (0x80, 0x80, 0x80, 0x80));
}

#[test]
fn colour_darken_subtracts_from_color_channels() {
    let palette: Vec<u32> = vec![0xFF64C8FF];
    // r = 0xFF, g = 0xC8, b = 0x64, a = 0xFF
    assert_eq!(colour(&palette, 1, 30), (0xFF - 30, 0xC8 - 30, 0x64 - 30, 0xFF));
}

#[test]
fn colour_darken_saturates_at_zero() {
    let palette: Vec<u32> = vec![0xFF051964];
    // r = 0x64 (100), g = 0x19 (25), b = 0x05 (5), a = 0xFF
    assert_eq!(colour(&palette, 1, 30), (70, 0, 0, 0xFF));
}

#[test]
fn colour_darken_leaves_alpha_untouched() {
    let palette: Vec<u32> = vec![0x10FFFFFF];
    assert_eq!(colour(&palette, 1, 255), (0, 0, 0, 0x10));
}

#[test]
fn colour_uses_one_based_index() {
    let palette: Vec<u32> = vec![0x000000AA, 0x000000BB];
    assert_eq!(colour(&palette, 1, 0).0, 0xAA);
    assert_eq!(colour(&palette, 2, 0).0, 0xBB);
}
