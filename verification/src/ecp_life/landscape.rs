//! The interaction landscape's shape, before any of its values.
//!
//! The landscape is a truncated Fourier series over the colour torus. Its coefficients
//! are drawn at random and it is evaluated in floating point, which is the host's work;
//! which harmonic orders the series has, and in what order their coefficients are
//! drawn, is decided here. Smoothness is that one integer: the highest order allowed.
use vstd::prelude::*;

verus! {

/// Resolution of the baked table along each colour axis.
pub const LUT_SIZE: usize = 256;

/// The highest harmonic order the Smoothness control will allow.
pub const MAX_HARMONICS: u32 = 6;

/// The harmonic order actually used for a requested one: at least one, at most
/// [`MAX_HARMONICS`].
pub open spec fn clamped_order(harmonics: u32) -> int {
    if harmonics < 1 {
        1
    } else if harmonics > MAX_HARMONICS {
        MAX_HARMONICS as int
    } else {
        harmonics as int
    }
}

/// The `k`-th `(m, n)` order pair of a series of order `h`: every pair with both
/// orders in `0 ..= h`, row by row, skipping the constant term `(0, 0)`.
pub open spec fn order_pair(h: int, k: int) -> (u32, u32) {
    (((k + 1) / (h + 1)) as u32, ((k + 1) % (h + 1)) as u32)
}

/// The `(m, n)` orders of the terms of a landscape with the given smoothness, in the
/// order their coefficients are drawn.
///
/// The constant term is left out: it is a uniform offset on every pair, which is what
/// the baseline-attraction parameter already is, and a better control than a random one.
pub fn harmonic_orders(harmonics: u32) -> (r: Vec<(u32, u32)>)
    ensures
        r@.len() == (clamped_order(harmonics) + 1) * (clamped_order(harmonics) + 1) - 1,
        forall|k: int| 0 <= k < r@.len() ==> #[trigger] r@[k] == order_pair(clamped_order(harmonics), k),
        1 <= harmonics <= MAX_HARMONICS ==> r@.len() == (harmonics + 1) * (harmonics + 1) - 1
            && r@[r@.len() - 1] == (harmonics, harmonics),
        forall|k: int|
            0 <= k < r@.len() ==> 1 <= #[trigger] r@[k].0 + r@[k].1 && r@[k].0 <= clamped_order(
                harmonics,
            ) && r@[k].1 <= clamped_order(harmonics),
{
    let h: u32 = if harmonics < 1 {
        1
    } else if harmonics > MAX_HARMONICS {
        MAX_HARMONICS
    } else {
        harmonics
    };
    let ghost hh = h as int;
    let mut r: Vec<(u32, u32)> = Vec::new();
    let mut m: u32 = 0;
    while m <= h
        invariant
            1 <= h <= MAX_HARMONICS,
            hh == h,
            m <= h + 1,
            r@.len() == m * (hh + 1) - if m > 0 { 1int } else { 0int },
            forall|k: int| 0 <= k < r@.len() ==> #[trigger] r@[k] == order_pair(hh, k),
        decreases h + 1 - m,
    {
        let mut n: u32 = 0;
        while n <= h
            invariant
                1 <= h <= MAX_HARMONICS,
                hh == h,
                m <= h,
                n <= h + 1,
                r@.len() == m * (hh + 1) + n - if m > 0 || n > 0 { 1int } else { 0int },
                forall|k: int| 0 <= k < r@.len() ==> #[trigger] r@[k] == order_pair(hh, k),
            decreases h + 1 - n,
        {
            if m != 0 || n != 0 {
                proof {
                    let k = r@.len() as int;
                    assert(k + 1 == m * (hh + 1) + n);
                    assert((k + 1) / (hh + 1) == m && (k + 1) % (hh + 1) == n) by (nonlinear_arith)
                        requires
                            k + 1 == m * (hh + 1) + n,
                            0 <= n < hh + 1,
                            0 <= m,
                    ;
                }
                r.push((m, n));
            }
            n = n + 1;
        }
        assert(m * (hh + 1) + (hh + 1) == (m + 1) * (hh + 1)) by (nonlinear_arith);
        m = m + 1;
    }
    proof {
        if 1 <= harmonics <= MAX_HARMONICS {
            lemma_every_order_up_to_the_detail(harmonics, harmonics as int, harmonics as int);
            let hh = harmonics as int;
            assert(hh * (hh + 1) + hh - 1 == (hh + 1) * (hh + 1) - 2) by (nonlinear_arith);
        }
        lemma_orders_stay_within_the_detail(clamped_order(harmonics));
    }
    r
}

/// Where a table entry sits: row `y`, column `x`.
/// A detail level from 1 to MAX_HARMONICS is the highest order the landscape uses:
/// every pair of orders `(m, n)` up to it, except the constant `(0, 0)`, is listed
/// exactly at position `m·(h+1) + n − 1`, so the list ends with `(h, h)` and has
/// `(h+1)² − 1` entries. Only levels outside that range are clamped.
pub proof fn lemma_every_order_up_to_the_detail(harmonics: u32, m: int, n: int)
    requires
        1 <= harmonics <= MAX_HARMONICS,
        0 <= m <= harmonics,
        0 <= n <= harmonics,
        m != 0 || n != 0,
    ensures
        clamped_order(harmonics) == harmonics,
        0 <= m * (harmonics + 1) + n - 1 < (harmonics + 1) * (harmonics + 1) - 1,
        order_pair(clamped_order(harmonics), m * (harmonics + 1) + n - 1) == (m as u32, n as u32),
{
    let h = harmonics as int;
    let k = m * (h + 1) + n - 1;
    assert(0 <= k < (h + 1) * (h + 1) - 1) by (nonlinear_arith)
        requires
            1 <= h,
            0 <= m <= h,
            0 <= n <= h,
            m != 0 || n != 0,
            k == m * (h + 1) + n - 1,
    ;
    assert((k + 1) / (h + 1) == m && (k + 1) % (h + 1) == n) by (nonlinear_arith)
        requires
            k + 1 == m * (h + 1) + n,
            0 <= n < h + 1,
            0 <= m,
    ;
}

/// Every listed pair of orders stays within the detail level and is not the constant.
proof fn lemma_orders_stay_within_the_detail(h: int)
    requires
        1 <= h <= MAX_HARMONICS,
    ensures
        forall|k: int|
            0 <= k < (h + 1) * (h + 1) - 1 ==> 1 <= #[trigger] order_pair(h, k).0 + order_pair(h, k).1
                && order_pair(h, k).0 <= h && order_pair(h, k).1 <= h,
{
    assert forall|k: int| 0 <= k < (h + 1) * (h + 1) - 1 implies 1 <= #[trigger] order_pair(h, k).0
        + order_pair(h, k).1 && order_pair(h, k).0 <= h && order_pair(h, k).1 <= h by {
        assert((k + 1) / (h + 1) <= h && 0 <= (k + 1) / (h + 1) && 0 <= (k + 1) % (h + 1) <= h && (
        (k + 1) / (h + 1) >= 1 || (k + 1) % (h + 1) >= 1)) by (nonlinear_arith)
            requires
                1 <= h,
                0 <= k < (h + 1) * (h + 1) - 1,
        ;
    }
}

pub open spec fn entry_at(x: int, y: int) -> int {
    y * LUT_SIZE + x
}

/// The four table entries a bilinear lookup blends, given the cell its colours fall in
/// (rounded down, and wrapped onto the table): the cell's own corner, the next column,
/// the next row, and both — each wrapping round the torus.
pub fn corners(ia: usize, ib: usize) -> (r: [usize; 4])
    ensures
        r[0] == entry_at(ia as int % LUT_SIZE as int, ib as int % LUT_SIZE as int),
        r[1] == entry_at((ia as int % LUT_SIZE as int + 1) % LUT_SIZE as int, ib as int % LUT_SIZE as int),
        r[2] == entry_at(ia as int % LUT_SIZE as int, (ib as int % LUT_SIZE as int + 1) % LUT_SIZE as int),
        r[3] == entry_at(
            (ia as int % LUT_SIZE as int + 1) % LUT_SIZE as int,
            (ib as int % LUT_SIZE as int + 1) % LUT_SIZE as int,
        ),
        forall|k: int| 0 <= k < 4 ==> #[trigger] r[k] < LUT_SIZE * LUT_SIZE,
{
    let (xa, yb) = (ia % LUT_SIZE, ib % LUT_SIZE);
    let (xj, yj) = ((xa + 1) % LUT_SIZE, (yb + 1) % LUT_SIZE);
    assert(yb * 256 + xa < 65536 && yb * 256 + xj < 65536 && yj * 256 + xa < 65536 && yj * 256 + xj < 65536) by (nonlinear_arith)
        requires
            xa < 256,
            yb < 256,
            xj < 256,
            yj < 256,
    ;
    [yb * LUT_SIZE + xa, yb * LUT_SIZE + xj, yj * LUT_SIZE + xa, yj * LUT_SIZE + xj]
}

} // verus!
