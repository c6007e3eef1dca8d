//! Partition of a row-major pixel grid into square work units.
//!
//! A `Grid` cuts a `width` x `height` image into tiles of side `block`
//! (clipped at the right and bottom borders). Every tile is one work unit:
//! it is sampled once, at its first pixel, and the sample is copied to every
//! pixel of the tile. With `block == 1` each pixel is its own unit.

use vstd::prelude::*;
use vstd::arithmetic::div_mod::lemma_fundamental_div_mod;
use vstd::arithmetic::div_mod::lemma_fundamental_div_mod_converse;
use vstd::arithmetic::div_mod::lemma_multiply_divide_lt;

verus! {

/// How many tiles of side `block` are needed to cover `extent` cells: the
/// quotient, rounded up.
pub open spec fn tiles_across(extent: int, block: int) -> int {
    if extent % block == 0 {
        extent / block
    } else {
        extent / block + 1
    }
}

/// Facts about `tiles_across` on a non-negative extent and a positive block.
pub proof fn lemma_tiles_across(extent: int, block: int)
    requires
        0 <= extent,
        1 <= block,
    ensures
        0 <= tiles_across(extent, block) <= extent,
        extent <= tiles_across(extent, block) * block,
        extent > 0 ==> (tiles_across(extent, block) - 1) * block < extent,
        block == 1 ==> tiles_across(extent, block) == extent,
{
    let q = extent / block;
    let r = extent % block;
    lemma_fundamental_div_mod(extent, block);
    assert(0 <= q && q <= extent && (r > 0 ==> q + 1 <= extent)) by (nonlinear_arith)
        requires
            extent == block * q + r,
            0 <= r < block,
            0 <= extent,
    ;
    assert(q * block == block * q && (q + 1) * block == block * q + block && (q - 1) * block
        == block * q - block) by (nonlinear_arith);
}

/// A cell below `extent` lies in a tile below `tiles_across(extent, block)`.
pub proof fn lemma_tile_of_cell(cell: int, extent: int, block: int)
    requires
        0 <= cell < extent,
        1 <= block,
    ensures
        0 <= cell / block < tiles_across(extent, block),
        (cell / block) * block <= cell < (cell / block) * block + block,
{
    lemma_tiles_across(extent, block);
    let n = tiles_across(extent, block);
    assert(block * n == n * block) by (nonlinear_arith);
    lemma_multiply_divide_lt(cell, block, n);
    lemma_fundamental_div_mod(cell, block);
}

/// Geometry of one render pass: the image size and the side of a work unit.
#[derive(Clone, Copy, Debug, PartialEq, Eq, Structural)]
pub struct Grid {
    pub width: usize,
    pub height: usize,
    pub block: usize,
}

impl Grid {
    /// A grid is well formed when its tiles have a positive side and its
    /// pixel count fits the machine word.
    pub open spec fn wf(&self) -> bool {
        &&& self.block >= 1
        &&& self.width * self.height <= usize::MAX
    }

    /// The width as a mathematical integer.
    pub open spec fn w(&self) -> int {
        self.width as int
    }

    /// The height as a mathematical integer.
    pub open spec fn h(&self) -> int {
        self.height as int
    }

    /// The tile side as a mathematical integer.
    pub open spec fn side(&self) -> int {
        self.block as int
    }

    /// Number of pixels.
    pub open spec fn pixels(&self) -> int {
        self.width * self.height
    }

    /// Number of tile columns.
    pub open spec fn cols(&self) -> int {
        tiles_across(self.w(), self.side())
    }

    /// Number of tile rows.
    pub open spec fn rows(&self) -> int {
        tiles_across(self.h(), self.side())
    }

    /// Number of work units.
    pub open spec fn units(&self) -> int {
        self.cols() * self.rows()
    }

    /// Row-major index of the pixel in column `x` and row `y`.
    pub open spec fn index_at(&self, x: int, y: int) -> int {
        y * self.width + x
    }

    /// The unit that owns the pixel in column `x` and row `y`: tiles are
    /// numbered row by row.
    pub open spec fn unit_at(&self, x: int, y: int) -> int {
        (y / self.side()) * self.cols() + x / self.side()
    }

    /// The unit that owns the pixel with row-major index `i`.
    pub open spec fn unit_of_index(&self, i: int) -> int {
        self.unit_at(i % self.w(), i / self.w())
    }

    /// Column and row of the first pixel of unit `k`, where the unit is
    /// sampled.
    pub open spec fn origin(&self, k: int) -> (int, int) {
        ((k % self.cols()) * self.block, (k / self.cols()) * self.block)
    }

    /// Whether the pixel in column `x` and row `y` lies in the tile of unit
    /// `k`.
    pub open spec fn covers(&self, k: int, x: int, y: int) -> bool {
        let (ox, oy) = self.origin(k);
        &&& ox <= x < ox + self.block
        &&& oy <= y < oy + self.block
    }

    /// The image obtained by copying each unit's sample to every pixel of
    /// the unit.
    pub open spec fn image(&self, samples: Seq<u32>) -> Seq<u32> {
        Seq::new(self.pixels() as nat, |i: int| samples[self.unit_of_index(i)])
    }

    /// The unit count never exceeds the pixel count, and both are
    /// non-negative.
    pub proof fn lemma_counts(&self)
        requires
            self.wf(),
        ensures
            0 <= self.cols() <= self.width,
            0 <= self.rows() <= self.height,
            0 <= self.units() <= self.pixels(),
            self.block == 1 ==> self.units() == self.pixels(),
    {
        lemma_tiles_across(self.w(), self.side());
        lemma_tiles_across(self.h(), self.side());
        let c = self.cols();
        let r = self.rows();
        let w = self.w();
        let h = self.h();
        assert(0 <= c * r <= w * h) by (nonlinear_arith)
            requires
                0 <= c <= w,
                0 <= r <= h,
        ;
    }

    /// A pixel index below the pixel count splits into a column below the
    /// width and a row below the height, and is recovered from them.
    pub proof fn lemma_position(&self, i: int)
        requires
            self.wf(),
            0 <= i < self.pixels(),
        ensures
            self.width > 0,
            0 <= i % self.w() < self.width,
            0 <= i / self.w() < self.height,
            self.index_at(i % self.w(), i / self.w()) == i,
    {
        let w = self.w();
        let h = self.h();
        lemma_fundamental_div_mod(i, w);
        let q = i / w;
        assert(0 <= q < h && q * w == w * q) by (nonlinear_arith)
            requires
                i == w * q + i % w,
                0 <= i % w < w,
                0 <= i < w * h,
        ;
    }

    /// A column and row inside the image give an index below the pixel
    /// count, from which they are recovered.
    pub proof fn lemma_index(&self, x: int, y: int)
        requires
            self.wf(),
            0 <= x < self.width,
            0 <= y < self.height,
        ensures
            0 <= self.index_at(x, y) < self.pixels(),
            self.index_at(x, y) % self.w() == x,
            self.index_at(x, y) / self.w() == y,
    {
        let w = self.w();
        let h = self.h();
        assert(0 <= y * w + x < w * h) by (nonlinear_arith)
            requires
                0 <= x < w,
                0 <= y < h,
        ;
        lemma_fundamental_div_mod_converse(y * w + x, w, y, x);
    }

    /// Coverage: every pixel of the image belongs to a unit below the unit
    /// count.
    pub proof fn lemma_unit_in_range(&self, x: int, y: int)
        requires
            self.wf(),
            0 <= x < self.width,
            0 <= y < self.height,
        ensures
            0 <= self.unit_at(x, y) < self.units(),
            0 <= x / self.side() < self.cols(),
            0 <= y / self.side() < self.rows(),
    {
        let b = self.side();
        lemma_tile_of_cell(x, self.w(), b);
        lemma_tile_of_cell(y, self.h(), b);
        let c = self.cols();
        let r = self.rows();
        let tx = x / b;
        let ty = y / b;
        assert(0 <= ty * c + tx < c * r) by (nonlinear_arith)
            requires
                0 <= tx < c,
                0 <= ty < r,
        ;
    }

    /// The tile column and tile row of a unit below the unit count.
    pub proof fn lemma_unit_split(&self, k: int)
        requires
            self.wf(),
            0 <= k < self.units(),
        ensures
            self.cols() > 0,
            0 <= k % self.cols() < self.cols(),
            0 <= k / self.cols() < self.rows(),
            (k / self.cols()) * self.cols() + k % self.cols() == k,
    {
        let c = self.cols();
        let r = self.rows();
        lemma_fundamental_div_mod(k, c);
        let q = k / c;
        assert(0 <= q < r && q * c == c * q) by (nonlinear_arith)
            requires
                k == c * q + k % c,
                0 <= k % c < c,
                0 <= k < c * r,
        ;
    }

    /// No unit is empty: the first pixel of every unit lies inside the image
    /// and belongs to that unit.
    pub proof fn lemma_origin_in_unit(&self, k: int)
        requires
            self.wf(),
            0 <= k < self.units(),
        ensures
            0 <= self.origin(k).0 < self.width,
            0 <= self.origin(k).1 < self.height,
            self.unit_at(self.origin(k).0, self.origin(k).1) == k,
            self.covers(k, self.origin(k).0, self.origin(k).1),
    {
        self.lemma_unit_split(k);
        let b = self.side();
        let c = self.cols();
        let r = self.rows();
        let tx = k % c;
        let ty = k / c;
        lemma_tiles_across(self.w(), b);
        lemma_tiles_across(self.h(), b);
        assert(0 <= tx * b <= (c - 1) * b) by (nonlinear_arith)
            requires
                0 <= tx <= c - 1,
                1 <= b,
        ;
        assert(0 <= ty * b <= (r - 1) * b) by (nonlinear_arith)
            requires
                0 <= ty <= r - 1,
                1 <= b,
        ;
        lemma_fundamental_div_mod_converse(tx * b, b, tx, 0);
        lemma_fundamental_div_mod_converse(ty * b, b, ty, 0);
    }

    /// Tiles: a pixel of the image belongs to unit `k` exactly when it lies
    /// in the square of side `block` that starts at the origin of `k`. So
    /// each pixel has one owner, and two different units share no pixel.
    pub proof fn lemma_unit_is_tile(&self, k: int, x: int, y: int)
        requires
            self.wf(),
            0 <= k < self.units(),
            0 <= x < self.width,
            0 <= y < self.height,
        ensures
            self.unit_at(x, y) == k <==> self.covers(k, x, y),
    {
        let b = self.side();
        let c = self.cols();
        self.lemma_unit_split(k);
        lemma_tile_of_cell(x, self.w(), b);
        lemma_tile_of_cell(y, self.h(), b);
        let tx = x / b;
        let ty = y / b;
        let kx = k % c;
        let ky = k / c;
        if self.unit_at(x, y) == k {
            lemma_fundamental_div_mod_converse(k, c, ty, tx);
        }
        if self.covers(k, x, y) {
            lemma_fundamental_div_mod_converse(x, b, kx, x - kx * b);
            lemma_fundamental_div_mod_converse(y, b, ky, y - ky * b);
        }
    }

    /// With tiles of side one, every pixel is its own unit and the image is
    /// the sample sequence itself.
    pub proof fn lemma_unit_tiles(&self, samples: Seq<u32>)
        requires
            self.wf(),
            self.block == 1,
            samples.len() == self.units(),
        ensures
            self.units() == self.pixels(),
            forall|i: int| 0 <= i < self.pixels() ==> self.unit_of_index(i) == i,
            self.image(samples) == samples,
    {
        assert forall|i: int| 0 <= i < self.pixels() implies self.unit_of_index(i) == i by {
            self.lemma_position(i);
        }
    }

    /// Builds the grid, or `None` when the tile side is zero or the pixel
    /// count does not fit the machine word.
    pub fn new(width: usize, height: usize, block: usize) -> (grid: Option<Grid>)
        ensures
            grid is Some <==> block >= 1 && width * height <= usize::MAX,
            grid matches Some(g) ==> g.width == width && g.height == height && g.block
                == block && g.wf(),
    {
        if block == 0 {
            return None;
        }
        match width.checked_mul(height) {
            Some(_) => Some(Grid { width, height, block }),
            None => None,
        }
    }

    /// Number of pixels of the image.
    pub fn pixel_count(&self) -> (n: usize)
        requires
            self.wf(),
        ensures
            n == self.pixels(),
    {
        self.width * self.height
    }

    /// Number of tile columns.
    pub fn col_count(&self) -> (n: usize)
        requires
            self.wf(),
        ensures
            n == self.cols(),
    {
        proof {
            lemma_tiles_across(self.w(), self.side());
        }
        if self.width % self.block == 0 {
            self.width / self.block
        } else {
            self.width / self.block + 1
        }
    }

    /// Number of tile rows.
    pub fn row_count(&self) -> (n: usize)
        requires
            self.wf(),
        ensures
            n == self.rows(),
    {
        proof {
            lemma_tiles_across(self.h(), self.side());
        }
        if self.height % self.block == 0 {
            self.height / self.block
        } else {
            self.height / self.block + 1
        }
    }

    /// Number of work units.
    pub fn unit_count(&self) -> (n: usize)
        requires
            self.wf(),
        ensures
            n == self.units(),
    {
        proof {
            self.lemma_counts();
        }
        self.col_count() * self.row_count()
    }

    /// Row-major index of the pixel in column `x` and row `y`.
    pub fn index(&self, x: usize, y: usize) -> (i: usize)
        requires
            self.wf(),
            x < self.width,
            y < self.height,
        ensures
            i == self.index_at(x as int, y as int),
            i < self.pixels(),
    {
        proof {
            self.lemma_index(x as int, y as int);
        }
        y * self.width + x
    }

    /// Column and row of the pixel with row-major index `i`.
    pub fn position(&self, i: usize) -> (p: (usize, usize))
        requires
            self.wf(),
            i < self.pixels(),
        ensures
            p.0 == i as int % self.w(),
            p.1 == i as int / self.w(),
            p.0 < self.width,
            p.1 < self.height,
            self.index_at(p.0 as int, p.1 as int) == i,
    {
        proof {
            self.lemma_position(i as int);
        }
        (i % self.width, i / self.width)
    }

    /// The unit that owns the pixel with row-major index `i`.
    pub fn unit_of(&self, i: usize) -> (k: usize)
        requires
            self.wf(),
            i < self.pixels(),
        ensures
            k == self.unit_of_index(i as int),
            k < self.units(),
    {
        let (x, y) = self.position(i);
        let cols = self.col_count();
        proof {
            self.lemma_unit_in_range(x as int, y as int);
            self.lemma_counts();
        }
        (y / self.block) * cols + x / self.block
    }

    /// Column and row of the first pixel of unit `k`: the point at which the
    /// unit is sampled.
    pub fn unit_origin(&self, k: usize) -> (p: (usize, usize))
        requires
            self.wf(),
            k < self.units(),
        ensures
            (p.0 as int, p.1 as int) == self.origin(k as int),
            p.0 < self.width,
            p.1 < self.height,
    {
        let cols = self.col_count();
        proof {
            self.lemma_origin_in_unit(k as int);
        }
        ((k % cols) * self.block, (k / cols) * self.block)
    }

    /// Overwrites the whole buffer with the image of `samples`: pixel `i`
    /// receives the sample of the unit that owns it. Nothing of the previous
    /// contents survives.
    pub fn replicate(&self, samples: &Vec<u32>, out: &mut Vec<u32>)
        requires
            self.wf(),
            samples@.len() == self.units(),
            old(out)@.len() == self.pixels(),
        ensures
            final(out)@ == self.image(samples@),
    {
        let n = self.pixel_count();
        let mut i: usize = 0;
        while i < n
            invariant
                self.wf(),
                n == self.pixels(),
                samples@.len() == self.units(),
                out@.len() == n,
                0 <= i <= n,
                forall|j: int| 0 <= j < i ==> out@[j] == samples@[self.unit_of_index(j)],
            decreases n - i,
        {
            let k = self.unit_of(i);
            out.set(i, samples[k]);
            i += 1;
        }
    }
}

} // verus!
