//! A per-pixel "keep the greatest depth" buffer.
//!
//! A row-major grid of (pixel, depth) cells; `add` replaces a cell only when
//! the new depth exceeds the stored one. The render pass does not use it —
//! occlusion there comes from sorting before painting — but it offers true
//! per-pixel depth comparison for projections that cannot be pre-sorted.

use vstd::prelude::*;

verus! {

/// A row-major buffer of RGBA pixels with their depths.
pub struct DepthBuffer {
    vec: Vec<((u8, u8, u8, u8), u32)>,
    width: usize,
}

impl DepthBuffer {
    /// The buffer's cells, row-major.
    pub closed spec fn cells(self) -> Seq<((u8, u8, u8, u8), u32)> {
        self.vec@
    }

    /// The buffer's row length.
    pub closed spec fn spec_width(self) -> usize {
        self.width
    }

    /// The cell index of (x, y).
    pub open spec fn index_of(self, x: usize, y: usize) -> int {
        x + y * self.spec_width()
    }

    /// A buffer of width x height cells, each a transparent pixel at depth
    /// zero.
    pub fn new(width: usize, height: usize) -> (r: Self)
        requires
            width * height <= usize::MAX,
        ensures
            r.spec_width() == width,
            r.cells().len() == width * height,
            forall|k: int|
                0 <= k < r.cells().len() ==> #[trigger] r.cells()[k] == (
                    (0u8, 0u8, 0u8, 0u8),
                    0u32,
                ),
    {
        let n = width * height;
        let mut vec: Vec<((u8, u8, u8, u8), u32)> = Vec::new();
        while vec.len() < n
            invariant
                vec@.len() <= n,
                forall|k: int|
                    0 <= k < vec@.len() ==> #[trigger] vec@[k] == ((0u8, 0u8, 0u8, 0u8), 0u32),
            decreases n - vec@.len(),
        {
            vec.push(((0, 0, 0, 0), 0));
        }
        Self { vec, width }
    }

    /// The depth stored at (x, y).
    pub fn depth_at(&self, x: usize, y: usize) -> (d: &u32)
        requires
            self.index_of(x, y) < self.cells().len(),
        ensures
            *d == self.cells()[self.index_of(x, y)].1,
    {
        let n = self.vec.len();
        &self.vec[x + y * self.width].1
    }

    /// Stores the pixel and its depth at (x, y), but only where the new
    /// depth exceeds the stored one.
    pub fn add(&mut self, x: usize, y: usize, pixel: (u8, u8, u8, u8), depth: u32)
        requires
            old(self).index_of(x, y) < old(self).cells().len(),
        ensures
            final(self).spec_width() == old(self).spec_width(),
            final(self).cells() == if depth > old(self).cells()[old(self).index_of(x, y)].1 {
                old(self).cells().update(old(self).index_of(x, y), (pixel, depth))
            } else {
                old(self).cells()
            },
    {
        let n = self.vec.len();
        let index = x + y * self.width;

        if depth > self.vec[index].1 {
            self.vec.set(index, (pixel, depth));
        }
    }

    /// The cells, for iteration.
    pub fn iter(&self) -> (r: &Vec<((u8, u8, u8, u8), u32)>)
        ensures
            r@ == self.cells(),
    {
        &self.vec
    }
}

} // verus!
