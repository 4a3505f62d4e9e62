//! The addressable pixel buffer and its two sampling modes.

use vstd::prelude::*;

use crate::pixel::Pixel;
use crate::pixel::blank_pixel;

verus! {

/// How out-of-range reads of a sprite are resolved.
#[derive(Clone, Copy, PartialEq, Eq, Structural, Debug)]
pub enum SpriteMode {
    /// Reads outside the sprite return the transparent sentinel.
    Normal,
    /// Coordinates wrap modulo the sprite's dimensions.
    Periodic,
}

/// A mirroring to apply when a sprite is drawn.  Rasterization of whole
/// sprites is outside this crate; the tag is part of the drawing surface.
#[derive(Clone, Copy, PartialEq, Eq, Structural, Debug)]
pub enum SpriteFlip {
    NoFlip,
    Horizontal,
    Vertical,
}

/// A 2D grid of pixels stored row-major: the pixel at `(x, y)` lives at
/// index `y * width + x` of `data`.
pub struct Sprite {
    pub width: u32,
    pub height: u32,
    pub data: Vec<Pixel>,
    pub mode: SpriteMode,
}

impl Sprite {
    /// The structural invariant: both dimensions are positive and the
    /// backing store holds exactly `width * height` pixels.
    pub open spec fn wf(self) -> bool {
        &&& 1 <= self.width
        &&& 1 <= self.height
        &&& self.width * self.height <= u32::MAX
        &&& self.data@.len() == self.width * self.height
    }

    /// The row-major index of the in-range coordinate `(x, y)`.
    pub open spec fn index_of(self, x: int, y: int) -> int {
        y * self.width + x
    }

    /// The pixel that a read of `(x, y)` yields.  In `Normal` mode an
    /// out-of-range coordinate degrades to the transparent sentinel; in
    /// `Periodic` mode both coordinates wrap modulo the dimensions.
    pub open spec fn pixel_at(self, x: int, y: int) -> Pixel {
        match self.mode {
            SpriteMode::Normal => if 0 <= x < self.width && 0 <= y < self.height {
                self.data@[self.index_of(x, y)]
            } else {
                blank_pixel()
            },
            SpriteMode::Periodic => self.data@[self.index_of(
                x % (self.width as int),
                y % (self.height as int),
            )],
        }
    }

    /// The coordinate that a nearest-neighbour sample maps `v` to, for a
    /// dimension of `size` pixels: `min(v * size, size - 1)`.
    pub open spec fn sample_coord(v: int, size: int) -> int {
        if v * size < size - 1 {
            v * size
        } else {
            size - 1
        }
    }

    /// A row-major index built from in-range coordinates is itself in
    /// range of the backing store.
    pub proof fn lemma_index_in_range(self, x: int, y: int)
        requires
            self.wf(),
            0 <= x < self.width,
            0 <= y < self.height,
        ensures
            0 <= self.index_of(x, y) < self.data@.len(),
    {
        assert(y * self.width + x < self.width * self.height) by (nonlinear_arith)
            requires
                0 <= x < self.width,
                0 <= y < self.height,
        ;
        assert(0 <= y * self.width) by (nonlinear_arith)
            requires
                0 <= y,
                0 <= self.width,
        ;
    }

    /// A new sprite of the given dimensions: every pixel transparent,
    /// reads clamped.
    pub fn new(width: u32, height: u32) -> (r: Sprite)
        requires
            1 <= width,
            1 <= height,
            width * height <= u32::MAX,
        ensures
            r.wf(),
            r.width == width,
            r.height == height,
            r.mode == SpriteMode::Normal,
            forall|i: int| 0 <= i < r.data@.len() ==> r.data@[i] == blank_pixel(),
    {
        let n: usize = (width * height) as usize;
        let mut data: Vec<Pixel> = Vec::new();
        let mut i: usize = 0;
        while i < n
            invariant
                i <= n,
                data@.len() == i,
                forall|j: int| 0 <= j < i ==> data@[j] == blank_pixel(),
            decreases n - i,
        {
            data.push(Pixel::blank());
            i = i + 1;
        }
        Sprite { width, height, data, mode: SpriteMode::Normal }
    }

    /// Reads the pixel at `(x, y)` under the sprite's addressing mode.
    /// Never fails: clamped reads degrade to the transparent sentinel and
    /// periodic reads wrap.
    pub fn get_pixel(&self, x: u32, y: u32) -> (r: Pixel)
        requires
            self.wf(),
        ensures
            r == self.pixel_at(x as int, y as int),
    {
        match self.mode {
            SpriteMode::Normal => {
                if x < self.width && y < self.height {
                    proof {
                        self.lemma_index_in_range(x as int, y as int);
                    }
                    let index = (y * self.width + x) as usize;
                    self.data[index]
                } else {
                    Pixel::blank()
                }
            },
            SpriteMode::Periodic => {
                let xi = x % self.width;
                let yi = y % self.height;
                proof {
                    self.lemma_index_in_range(xi as int, yi as int);
                }
                let index = (yi * self.width + xi) as usize;
                self.data[index]
            },
        }
    }

    /// Writes `pixel` at the row-major index of `(x, y)`.  The caller is
    /// responsible for the bounds; nothing else about the sprite changes.
    pub fn set_pixel(&mut self, x: u32, y: u32, pixel: &Pixel)
        requires
            old(self).wf(),
            x < old(self).width,
            y < old(self).height,
        ensures
            final(self).wf(),
            final(self).width == old(self).width,
            final(self).height == old(self).height,
            final(self).mode == old(self).mode,
            final(self).data@ == old(self).data@.update(
                old(self).index_of(x as int, y as int),
                *pixel,
            ),
    {
        proof {
            old(self).lemma_index_in_range(x as int, y as int);
        }
        let index = (y * self.width + x) as usize;
        self.data.set(index, *pixel);
    }

    /// A nearest-neighbour sample: `x` and `y` are fractions of the
    /// sprite's extent, so each coordinate maps to `min(v * size, size - 1)`,
    /// which is always in range — a sample never wraps and never reads
    /// out of bounds.
    pub fn sample(&self, x: u32, y: u32) -> (r: Pixel)
        requires
            self.wf(),
        ensures
            r == self.pixel_at(
                Self::sample_coord(x as int, self.width as int),
                Self::sample_coord(y as int, self.height as int),
            ),
    {
        let sx = Self::clamped_scale(x, self.width);
        let sy = Self::clamped_scale(y, self.height);
        self.get_pixel(sx, sy)
    }

    /// `min(v * size, size - 1)` without overflow: any non-zero `v`
    /// already scales to at least `size`, so only `v == 0` stays at 0.
    fn clamped_scale(v: u32, size: u32) -> (r: u32)
        requires
            1 <= size,
        ensures
            r == Self::sample_coord(v as int, size as int),
            r < size,
    {
        if v == 0 {
            0
        } else {
            assert(v * size >= size) by (nonlinear_arith)
                requires
                    1 <= v,
                    1 <= size,
            ;
            size - 1
        }
    }

    /// Overwrites every pixel of the backing store with `pixel`.
    pub fn clear(&mut self, pixel: &Pixel)
        requires
            old(self).wf(),
        ensures
            final(self).wf(),
            final(self).width == old(self).width,
            final(self).height == old(self).height,
            final(self).mode == old(self).mode,
            final(self).data@.len() == old(self).data@.len(),
            forall|i: int| 0 <= i < final(self).data@.len() ==> final(self).data@[i] == *pixel,
    {
        let n: usize = self.data.len();
        let mut i: usize = 0;
        while i < n
            invariant
                i <= n,
                n == self.data@.len(),
                self.width == old(self).width,
                self.height == old(self).height,
                self.mode == old(self).mode,
                forall|j: int| 0 <= j < i ==> self.data@[j] == *pixel,
            decreases n - i,
        {
            self.data.set(i, *pixel);
            i = i + 1;
        }
    }
}

/// Sampling at full extent in both directions reads the bottom-right
/// pixel: for any well-formed sprite, a sample at `(1, 1)` yields the
/// stored pixel at `(width - 1, height - 1)`, never an out-of-range read.
pub proof fn lemma_sample_full_extent(s: Sprite)
    requires
        s.wf(),
    ensures
        s.pixel_at(
            Sprite::sample_coord(1, s.width as int),
            Sprite::sample_coord(1, s.height as int),
        ) == s.data@[s.index_of(s.width - 1, s.height - 1)],
{
    let x = s.width - 1;
    let y = s.height - 1;
    assert(Sprite::sample_coord(1, s.width as int) == x);
    assert(Sprite::sample_coord(1, s.height as int) == y);
    s.lemma_index_in_range(x as int, y as int);
    assert(x as int % (s.width as int) == x) by {
        vstd::arithmetic::div_mod::lemma_small_mod(x as nat, s.width as nat);
    }
    assert(y as int % (s.height as int) == y) by {
        vstd::arithmetic::div_mod::lemma_small_mod(y as nat, s.height as nat);
    }
}

} // verus!
