//! Falloff: how much height each cell loses with its distance from the grid
//! centre, so that land gathers in the middle and the edges sink into sea.
//!
//! Amounts are exact: a square falloff is a ratio of integers, a circular one
//! the square root of an integer over an integer.

use vstd::prelude::*;

verus! {

/// The amount subtracted from one cell's height.
#[derive(Clone, Copy, Debug, PartialEq, Eq, Structural)]
pub enum Falloff {
    /// `num / den`.
    Linear { num: u64, den: u64 },
    /// `sqrt(dist_sq) / den`.
    Radial { dist_sq: u128, den: u64 },
}

/// Which shape of falloff to apply.
#[derive(Clone, Copy, Debug, PartialEq, Eq, Structural)]
pub enum ErosionPolicy {
    Square,
    Circular,
}

pub open spec fn abs(v: int) -> int {
    if v < 0 { -v } else { v }
}

/// Twice the distance of coordinate `c` from the centre `n / 2`, so that the
/// normalised distance is `edge_offset(c, n) / n`.
pub open spec fn edge_offset(c: int, n: int) -> int {
    abs(2 * c - n)
}

/// Square falloff at cell `(x, y)`: with `dx = |2x - w| / w` and
/// `dy = |2y - h| / h`, the amount is `clamp(max(dx, dy) - 1/2, 0, 1) * 2`,
/// i.e. `max(0, 2 * max(dx, dy) - 1)`, written over the denominator of the
/// larger of `dx` and `dy`.
pub open spec fn square_falloff_spec(x: int, y: int, w: int, h: int) -> Falloff {
    let ax = edge_offset(x, w);
    let ay = edge_offset(y, h);
    if ax * h >= ay * w {
        Falloff::Linear { num: if 2 * ax > w { (2 * ax - w) as u64 } else { 0 }, den: w as u64 }
    } else {
        Falloff::Linear { num: if 2 * ay > h { (2 * ay - h) as u64 } else { 0 }, den: h as u64 }
    }
}

/// Circular falloff at cell `(x, y)`: the Euclidean distance to the centre
/// cell `(w / 2 - 1, h / 2 - 1)`, divided by the height `h`.
pub open spec fn circle_falloff_spec(x: int, y: int, w: int, h: int) -> Falloff {
    let ox = (w / 2 - 1) - x;
    let oy = (h / 2 - 1) - y;
    Falloff::Radial { dist_sq: (ox * ox + oy * oy) as u128, den: h as u64 }
}

pub open spec fn falloff_spec(policy: ErosionPolicy, x: int, y: int, w: int, h: int) -> Falloff {
    match policy {
        ErosionPolicy::Square => square_falloff_spec(x, y, w, h),
        ErosionPolicy::Circular => circle_falloff_spec(x, y, w, h),
    }
}

/// The falloff of every cell of a `w` by `h` grid, row-major.
pub open spec fn falloff_grid_spec(policy: ErosionPolicy, w: int, h: int, grid: Seq<Falloff>) -> bool {
    &&& grid.len() == w * h
    &&& forall|i: int| 0 <= i < grid.len() ==> #[trigger] grid[i] == falloff_spec(policy, i % w, i / w, w, h)
}

/// Inside the central plateau, where both normalised distances are at most
/// one half, the square falloff is zero: those cells keep their height.
pub proof fn lemma_square_plateau(x: int, y: int, w: int, h: int)
    requires
        0 <= x < w,
        0 <= y < h,
        2 * edge_offset(x, w) <= w,
        2 * edge_offset(y, h) <= h,
    ensures
        square_falloff_spec(x, y, w, h) matches Falloff::Linear { num, den } && num == 0,
{
}

/// The square falloff never exceeds 1, and every cell of the first row or the
/// first column, among them three of the four corners, receives exactly 1.
pub proof fn lemma_square_peak(x: int, y: int, w: int, h: int)
    requires
        0 <= x < w <= u32::MAX,
        0 <= y < h <= u32::MAX,
    ensures
        square_falloff_spec(x, y, w, h) matches Falloff::Linear { num, den } && 0 < den && num <= den,
        (x == 0 || y == 0) ==> (square_falloff_spec(x, y, w, h) matches Falloff::Linear { num, den }
            && num == den),
{
    let ax = edge_offset(x, w);
    let ay = edge_offset(y, h);
    if x == 0 {
        assert(ax * h >= ay * w) by (nonlinear_arith)
            requires ay <= h, w > 0, ax == w;
    } else if y == 0 {
        if ax * h >= ay * w {
            assert(ax >= w) by (nonlinear_arith)
                requires ax * h >= ay * w, ay == h, h > 0;
        }
    }
}

/// The square falloff is symmetric under the reflection `(x, y) -> (w - x, h - y)`
/// through the centre point `(w / 2, h / 2)`.
pub proof fn lemma_square_mirror(x: int, y: int, w: int, h: int)
    requires
        0 < x < w,
        0 < y < h,
    ensures
        square_falloff_spec(x, y, w, h) == square_falloff_spec(w - x, h - y, w, h),
{
    assert(edge_offset(x, w) == edge_offset(w - x, w));
    assert(edge_offset(y, h) == edge_offset(h - y, h));
}

fn offset_from_centre(c: u64, n: u64) -> (r: u64)
    requires
        c < n,
        n <= 0xffff_ffff,
    ensures
        r == edge_offset(c as int, n as int),
{
    if 2 * c >= n {
        2 * c - n
    } else {
        n - 2 * c
    }
}

/// The square falloff of one cell.
pub fn square_falloff(x: u32, y: u32, width: u32, height: u32) -> (r: Falloff)
    requires
        x < width,
        y < height,
    ensures
        r == square_falloff_spec(x as int, y as int, width as int, height as int),
{
    let w = width as u64;
    let h = height as u64;
    let ax = offset_from_centre(x as u64, w);
    let ay = offset_from_centre(y as u64, h);
    assert(ax * h <= w * h) by (nonlinear_arith)
        requires ax <= w;
    assert(ay * w <= h * w) by (nonlinear_arith)
        requires ay <= h;
    assert(w * h <= 0xffff_ffff * 0xffff_ffff) by (nonlinear_arith)
        requires w <= 0xffff_ffff, h <= 0xffff_ffff;
    if ax * h >= ay * w {
        let num = if 2 * ax > w { 2 * ax - w } else { 0 };
        Falloff::Linear { num, den: w }
    } else {
        let num = if 2 * ay > h { 2 * ay - h } else { 0 };
        Falloff::Linear { num, den: h }
    }
}

/// The circular falloff of one cell.
pub fn circle_falloff(x: u32, y: u32, width: u32, height: u32) -> (r: Falloff)
    requires
        x < width,
        y < height,
    ensures
        r == circle_falloff_spec(x as int, y as int, width as int, height as int),
{
    let ox = (width / 2) as i64 - 1 - x as i64;
    let oy = (height / 2) as i64 - 1 - y as i64;
    let ax = if ox < 0 { -ox } else { ox } as u128;
    let ay = if oy < 0 { -oy } else { oy } as u128;
    assert(ax * ax <= 0x1_0000_0000 * 0x1_0000_0000) by (nonlinear_arith)
        requires ax <= 0x1_0000_0000;
    assert(ay * ay <= 0x1_0000_0000 * 0x1_0000_0000) by (nonlinear_arith)
        requires ay <= 0x1_0000_0000;
    assert(ax * ax == ox * ox) by (nonlinear_arith)
        requires ax == abs(ox as int);
    assert(ay * ay == oy * oy) by (nonlinear_arith)
        requires ay == abs(oy as int);
    Falloff::Radial { dist_sq: ax * ax + ay * ay, den: height as u64 }
}

impl ErosionPolicy {
    /// The falloff of one cell under this policy.
    pub fn falloff(&self, x: u32, y: u32, width: u32, height: u32) -> (r: Falloff)
        requires
            x < width,
            y < height,
        ensures
            r == falloff_spec(*self, x as int, y as int, width as int, height as int),
    {
        match self {
            ErosionPolicy::Square => square_falloff(x, y, width, height),
            ErosionPolicy::Circular => circle_falloff(x, y, width, height),
        }
    }

    /// The falloff of every cell of a `width` by `height` grid, row-major
    /// (index `y * width + x`).
    pub fn apply(&self, width: u32, height: u32) -> (r: Vec<Falloff>)
        requires
            width as int * height as int <= usize::MAX,
        ensures
            falloff_grid_spec(*self, width as int, height as int, r@),
    {
        let n: usize = (width as u64 * height as u64) as usize;
        let mut out: Vec<Falloff> = Vec::new();
        let mut idx: usize = 0;
        while idx < n
            invariant
                n == width as int * height as int,
                idx <= n,
                out@.len() == idx,
                forall|i: int| 0 <= i < idx ==> #[trigger] out@[i] == falloff_spec(
                    *self, i % width as int, i / width as int, width as int, height as int),
            decreases n - idx,
        {
            let w = width as usize;
            assert(w > 0) by (nonlinear_arith)
                requires idx < n, n == w * height as int;
            let x = idx % w;
            let y = idx / w;
            assert(y < height) by (nonlinear_arith)
                requires idx < w * height as int, w > 0, y == idx / w;
            out.push(self.falloff(x as u32, y as u32, width, height));
            idx += 1;
        }
        out
    }
}

/// The square falloff of every cell, row-major.
pub fn square_gradient_erode(width: u32, height: u32) -> (r: Vec<Falloff>)
    requires
        width as int * height as int <= usize::MAX,
    ensures
        falloff_grid_spec(ErosionPolicy::Square, width as int, height as int, r@),
{
    ErosionPolicy::Square.apply(width, height)
}

/// The circular falloff of every cell, row-major.
pub fn circle_gradient_erode(width: u32, height: u32) -> (r: Vec<Falloff>)
    requires
        width as int * height as int <= usize::MAX,
    ensures
        falloff_grid_spec(ErosionPolicy::Circular, width as int, height as int, r@),
{
    ErosionPolicy::Circular.apply(width, height)
}

} // verus!
