//! Colour values and their blending.

use vstd::prelude::*;

verus! {

/// How a drawn pixel is composited into the buffer.
#[derive(Clone, Copy, PartialEq, Eq, Structural, Debug)]
pub enum PixelMode {
    /// The source pixel overwrites the destination; alpha is ignored.
    Normal,
    /// The source pixel is written only when it is fully opaque.
    Mask,
    /// The source pixel is linearly interpolated over the destination.
    Alpha,
}

/// A 4-channel colour value with 8-bit channels.
#[derive(Clone, Copy, PartialEq, Eq, Structural, Debug)]
pub struct Pixel {
    pub red: u8,
    pub green: u8,
    pub blue: u8,
    pub alpha: u8,
}

/// The fully transparent sentinel colour.
pub open spec fn blank_pixel() -> Pixel {
    Pixel { red: 0, green: 0, blue: 0, alpha: 0 }
}

/// The packed presentation form of a pixel: `red << 16 | green << 8 | blue`,
/// with the alpha channel dropped.
pub open spec fn pixel_packed(p: Pixel) -> int {
    p.red * 0x10000 + p.green * 0x100 + p.blue
}

/// The largest packed colour value: all three channels at 255.
pub open spec fn packed_max() -> int {
    0xFFFFFF
}

/// The weight, out of `255 * 255`, that the source pixel carries in an
/// alpha-mode blend: its own alpha channel scaled by the global blend
/// factor (each out of 255).
pub open spec fn blend_weight(alpha: u8, blend: u8) -> int {
    alpha * blend
}

/// The weighted average of a source and a destination channel with weight
/// `w` out of `255 * 255`, truncated to an integer.
pub open spec fn channel_mix_spec(w: int, src: u8, dst: u8) -> int {
    (w * src + (65025 - w) * dst) / (65025 as int)
}

/// One channel of an alpha-mode blend: the weighted average of the source
/// and destination channels, truncated to an integer.
pub open spec fn blend_channel(src: u8, dst: u8, alpha: u8, blend: u8) -> int {
    channel_mix_spec(blend_weight(alpha, blend), src, dst)
}

/// The pixel produced by blending `src` over `dst` with global blend
/// factor `blend`: each colour channel is interpolated, and the result is
/// fully opaque (the blend does not accumulate alpha).
pub open spec fn blend_over(src: Pixel, dst: Pixel, blend: u8) -> Pixel {
    Pixel {
        red: blend_channel(src.red, dst.red, src.alpha, blend) as u8,
        green: blend_channel(src.green, dst.green, src.alpha, blend) as u8,
        blue: blend_channel(src.blue, dst.blue, src.alpha, blend) as u8,
        alpha: 255,
    }
}

/// The weighted average of two 8-bit channels is itself in the 8-bit
/// range whenever the weight is in range, so the `as u8` casts in
/// `blend_over` never truncate.
pub proof fn lemma_channel_mix_bounds(w: int, src: u8, dst: u8)
    requires
        0 <= w <= 65025,
    ensures
        0 <= channel_mix_spec(w, src, dst) <= 255,
{
    let num = w * src + (65025 - w) * dst;
    assert(0 <= w * src <= w * 255) by (nonlinear_arith)
        requires
            0 <= w,
            0 <= src <= 255,
    ;
    assert(0 <= (65025 - w) * dst <= (65025 - w) * 255) by (nonlinear_arith)
        requires
            w <= 65025,
            0 <= dst <= 255,
    ;
    assert(0 <= num <= 65025 * 255);
    assert(0 <= num / (65025 as int) <= 255) by (nonlinear_arith)
        requires
            0 <= num <= 65025 * 255,
    ;
}

/// A blend with a fully opaque source at full blend factor replaces the
/// destination channel, and a blend with factor zero keeps it: the two
/// endpoints of the interpolation are exact.
pub proof fn lemma_blend_endpoints(src: u8, dst: u8, alpha: u8)
    ensures
        blend_channel(src, dst, 255, 255) == src,
        blend_channel(src, dst, alpha, 0) == dst,
{
    assert((65025 as int) * src / (65025 as int) == src) by (nonlinear_arith);
    assert((65025 as int) * dst / (65025 as int) == dst) by (nonlinear_arith);
    assert(blend_weight(255, 255) == 65025);
    assert(blend_weight(alpha, 0) == 0) by (nonlinear_arith);
}

impl Pixel {
    /// A pixel with the given channels and explicit alpha.
    pub fn rbg_a(red: u8, green: u8, blue: u8, alpha: u8) -> (r: Pixel)
        ensures
            r == (Pixel { red, green, blue, alpha }),
    {
        Pixel { red, green, blue, alpha }
    }

    /// A fully opaque pixel with the given colour channels.
    pub fn rgb(red: u8, green: u8, blue: u8) -> (r: Pixel)
        ensures
            r == (Pixel { red, green, blue, alpha: 255u8 }),
    {
        Pixel { red, green, blue, alpha: 255 }
    }

    /// The fully transparent sentinel colour.
    pub fn blank() -> (r: Pixel)
        ensures
            r == blank_pixel(),
    {
        Pixel { red: 0, green: 0, blue: 0, alpha: 0 }
    }

    /// Unpacks a packed `red << 16 | green << 8 | blue` colour into a fully
    /// opaque pixel.  Bits above the low 24 are ignored.
    pub fn from_rgb(i: u32) -> (r: Pixel)
        ensures
            r.red == i / 0x10000 % 0x100,
            r.green == i / 0x100 % 0x100,
            r.blue == i % 0x100,
            r.alpha == 255,
    {
        let red = ((i / 0x10000) % 0x100) as u8;
        let green = ((i / 0x100) % 0x100) as u8;
        let blue = (i % 0x100) as u8;
        Pixel::rgb(red, green, blue)
    }

    /// Packs the colour channels into the presentation form
    /// `red << 16 | green << 8 | blue`, dropping alpha.
    pub fn to_rgb(&self) -> (r: u32)
        ensures
            r == pixel_packed(*self),
            r <= packed_max(),
    {
        let (r, g, b) = (self.red as u32, self.green as u32, self.blue as u32);
        r * 0x10000 + g * 0x100 + b
    }

    /// Blends this pixel over the `depth` pixel already in the buffer.
    ///
    /// The effective weight of this pixel is its alpha channel scaled by
    /// the global `blend_factor`, both out of 255; each colour channel of
    /// the result is the weighted average, truncated.  The result is fully
    /// opaque.
    pub fn calculate_alpha(&self, depth: &Pixel, blend_factor: u8) -> (r: Pixel)
        ensures
            r == blend_over(*self, *depth, blend_factor),
    {
        assert(self.alpha * blend_factor <= 65025) by (nonlinear_arith)
            requires
                0 <= self.alpha <= 255,
                0 <= blend_factor <= 255,
        ;
        let w: u32 = (self.alpha as u32) * (blend_factor as u32);
        let r = Pixel::channel_mix(w, self.red, depth.red);
        let g = Pixel::channel_mix(w, self.green, depth.green);
        let b = Pixel::channel_mix(w, self.blue, depth.blue);
        Pixel::rgb(r, g, b)
    }

    /// One channel of the weighted average used by `calculate_alpha`,
    /// with weight `w` out of `255 * 255`.
    fn channel_mix(w: u32, src: u8, dst: u8) -> (r: u8)
        requires
            w <= 65025,
        ensures
            r == channel_mix_spec(w as int, src, dst),
    {
        proof {
            lemma_channel_mix_bounds(w as int, src, dst);
        }
        assert(w * src <= 65025 * 255 && (65025 - w) * dst <= 65025 * 255) by (nonlinear_arith)
            requires
                0 <= w <= 65025,
                0 <= src <= 255,
                0 <= dst <= 255,
        ;
        let num: u32 = w * (src as u32) + (65025 - w) * (dst as u32);
        let q: u32 = num / 65025;
        q as u8
    }
}

} // verus!
