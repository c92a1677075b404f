//! The raster sink: a fixed-size pixel grid with a uniform background,
//! written one pixel at a time.
//!
//! A plotted point carries fixed-point coordinates; the write lands on the
//! pixel whose index is the coordinate truncated to whole pixels. Writing
//! outside the grid is ruled out by precondition rather than clamped, so a
//! geometry mistake shows up as a verification failure, not a corrupted
//! image.

use vstd::pervasive::VecAdditionalExecFns;
use vstd::prelude::*;

use crate::geometry::{Point, MAX_DIM, SCALE};

verus! {

/// An RGB color.
#[derive(Clone, Copy, PartialEq, Eq, Structural, Debug)]
pub struct Color {
    pub r: u8,
    pub g: u8,
    pub b: u8,
}

/// A `width` by `height` pixel grid, stored row-major.
pub struct Canvas {
    pub width: u32,
    pub height: u32,
    pub pixels: Vec<Color>,
}

impl Canvas {
    /// Nonempty dimensions within the supported range, and one stored
    /// color per pixel.
    pub open spec fn wf(self) -> bool {
        &&& 1 <= self.width <= MAX_DIM
        &&& 1 <= self.height <= MAX_DIM
        &&& self.pixels@.len() == self.width * self.height
    }

    /// Whether the pixel containing `p` lies on the canvas.
    pub open spec fn covers(self, p: Point) -> bool {
        p.x < self.width * SCALE && p.y < self.height * SCALE
    }

    /// The row-major index of the pixel containing `p`.
    pub open spec fn pixel_index(self, p: Point) -> int {
        ((p.y as int) / (SCALE as int)) * self.width + (p.x as int) / (SCALE as int)
    }

    /// The stored color of the pixel at column `px`, row `py`.
    pub open spec fn pixel_at(self, px: int, py: int) -> Color {
        self.pixels@[py * self.width + px]
    }

    /// A canvas of the given dimensions with every pixel set to the
    /// background color.
    pub fn new(width: u32, height: u32, background: Color) -> (c: Canvas)
        requires
            1 <= width <= MAX_DIM,
            1 <= height <= MAX_DIM,
        ensures
            c.wf(),
            c.width == width,
            c.height == height,
            forall|i: int| 0 <= i < c.pixels@.len() ==> c.pixels@[i] == background,
    {
        proof {
            vstd::arithmetic::mul::lemma_mul_upper_bound(
                width as int, MAX_DIM as int, height as int, MAX_DIM as int);
            vstd::arithmetic::mul::lemma_mul_nonnegative(width as int, height as int);
        }
        let n: usize = (width as usize) * (height as usize);
        let mut pixels: Vec<Color> = Vec::new();
        let mut i: usize = 0;
        while i < n
            invariant
                i <= n,
                pixels@.len() == i,
                forall|j: int| 0 <= j < i ==> pixels@[j] == background,
            decreases n - i,
        {
            pixels.push(background);
            i = i + 1;
        }
        Canvas { width, height, pixels }
    }

    /// Writes `color` at the pixel containing `p`; every other pixel keeps
    /// its color.
    pub fn plot(&mut self, p: Point, color: Color)
        requires
            old(self).wf(),
            old(self).covers(p),
        ensures
            final(self).wf(),
            final(self).width == old(self).width,
            final(self).height == old(self).height,
            0 <= old(self).pixel_index(p) < old(self).pixels@.len(),
            final(self).pixels@ == old(self).pixels@.update(old(self).pixel_index(p), color),
    {
        let px: u64 = p.x / SCALE;
        let py: u64 = p.y / SCALE;
        proof {
            vstd::arithmetic::mul::lemma_mul_is_commutative(
                self.width as int, SCALE as int);
            vstd::arithmetic::mul::lemma_mul_is_commutative(
                self.height as int, SCALE as int);
            vstd::arithmetic::div_mod::lemma_multiply_divide_lt(
                p.x as int, SCALE as int, self.width as int);
            vstd::arithmetic::div_mod::lemma_multiply_divide_lt(
                p.y as int, SCALE as int, self.height as int);
            vstd::arithmetic::mul::lemma_mul_inequality(
                py as int, self.height as int - 1, self.width as int);
            vstd::arithmetic::mul::lemma_mul_is_distributive_sub_other_way(
                self.width as int, self.height as int, 1);
            vstd::arithmetic::mul::lemma_mul_is_commutative(
                self.width as int, self.height as int);
            vstd::arithmetic::mul::lemma_mul_nonnegative(py as int, self.width as int);
            vstd::arithmetic::mul::lemma_mul_upper_bound(
                py as int, MAX_DIM as int, self.width as int, MAX_DIM as int);
        }
        let idx: usize = (py as usize) * (self.width as usize) + (px as usize);
        self.pixels.set(idx, color);
    }

    /// Reads the color of the pixel at column `px`, row `py`.
    pub fn get_pixel(&self, px: u32, py: u32) -> (c: Color)
        requires
            self.wf(),
            px < self.width,
            py < self.height,
        ensures
            c == self.pixel_at(px as int, py as int),
    {
        proof {
            vstd::arithmetic::mul::lemma_mul_inequality(
                py as int, self.height as int - 1, self.width as int);
            vstd::arithmetic::mul::lemma_mul_is_distributive_sub_other_way(
                self.width as int, self.height as int, 1);
            vstd::arithmetic::mul::lemma_mul_is_commutative(
                self.width as int, self.height as int);
            vstd::arithmetic::mul::lemma_mul_nonnegative(py as int, self.width as int);
            vstd::arithmetic::mul::lemma_mul_upper_bound(
                py as int, MAX_DIM as int, self.width as int, MAX_DIM as int);
        }
        let idx: usize = (py as usize) * (self.width as usize) + (px as usize);
        self.pixels[idx]
    }
}

} // verus!
