use yape::Pixel;

#[test]
fn constructors_set_channels() {
    let p = Pixel::rbg_a(1, 2, 3, 4);
    assert_eq!(p.red, 1);
    assert_eq!(p.green, 2);
    assert_eq!(p.blue, 3);
    assert_eq!(p.alpha, 4);

    let q = Pixel::rgb(10, 20, 30);
    assert_eq!(q.alpha, 255);
    assert_eq!(q.red, 10);
    assert_eq!(q.green, 20);
    assert_eq!(q.blue, 30);

    let b = Pixel::blank();
    assert_eq!(b, Pixel::rbg_a(0, 0, 0, 0));
}

#[test]
fn to_rgb_packs_r16_g8_b() {
    assert_eq!(Pixel::rgb(0x12, 0x34, 0x56).to_rgb(), 0x123456);
    assert_eq!(Pixel::rgb(255, 255, 255).to_rgb(), 0xFFFFFF);
    assert_eq!(Pixel::rgb(0, 0, 0).to_rgb(), 0);
    // Alpha is dropped from the packed form.
    assert_eq!(Pixel::rbg_a(0x12, 0x34, 0x56, 0).to_rgb(), 0x123456);
}

#[test]
fn from_rgb_unpacks_channels() {
    let p = Pixel::from_rgb(0x123456);
    assert_eq!(p, Pixel::rgb(0x12, 0x34, 0x56));
    // Bits above the low 24 are ignored.
    let q = Pixel::from_rgb(0xFF123456);
    assert_eq!(q, Pixel::rgb(0x12, 0x34, 0x56));
}

#[test]
fn pack_unpack_round_trip() {
    let p = Pixel::rgb(7, 99, 201);
    assert_eq!(Pixel::from_rgb(p.to_rgb()), p);
    assert_eq!(Pixel::from_rgb(0xABCDEF).to_rgb(), 0xABCDEF);
}

#[test]
fn blend_full_factor_full_alpha_replaces() {
    let background = Pixel::rbg_a(0, 0, 0, 255);
    let source = Pixel::rbg_a(255, 255, 255, 255);
    let out = source.calculate_alpha(&background, 255);
    assert_eq!(out.red, 255);
    assert_eq!(out.green, 255);
    assert_eq!(out.blue, 255);
}

#[test]
fn blend_zero_factor_keeps_background() {
    let background = Pixel::rbg_a(0, 0, 0, 255);
    let source = Pixel::rbg_a(255, 255, 255, 255);
    let out = source.calculate_alpha(&background, 0);
    assert_eq!(out, background);
}

#[test]
fn blend_half_alpha_is_exact() {
    // weight = 128 * 255 out of 255 * 255, so a white source over a black
    // background lands exactly on 128: (128 * 255 * 255) / (255 * 255).
    let background = Pixel::rgb(0, 0, 0);
    let source = Pixel::rbg_a(255, 255, 255, 128);
    let out = source.calculate_alpha(&background, 255);
    assert_eq!(out, Pixel::rgb(128, 128, 128));
}
