//! Normalization of scalar samples and the red-blue diverging color map.
//!
//! Samples are fixed-point integers: the caller picks the unit. The ratio of a
//! sample `v` in a grid with extremes `lo` and `hi` is `(v - lo) / (hi - lo)`,
//! and its color is `(ratio, 0, 1 - ratio, 1)`, each channel scaled to `0..=255`
//! and rounded to the nearest integer (halves round up).

use vstd::arithmetic::div_mod::{lemma_div_is_ordered, lemma_fundamental_div_mod, lemma_mod_pos_bound};
use vstd::prelude::*;

verus! {

/// A color with 8 bits per channel.
#[derive(Clone, Copy, Debug, PartialEq, Eq, Structural)]
pub struct Rgba8 {
    pub r: u8,
    pub g: u8,
    pub b: u8,
    pub a: u8,
}

/// The color of ratio 0, opaque blue. It is also the color of every sample
/// of a grid whose samples are all equal, where the ratio is taken to be 0.
pub open spec fn ratio_zero_color() -> Rgba8 {
    Rgba8 { r: 0, g: 0, b: 255, a: 255 }
}

/// The color of ratio 1, opaque red.
pub open spec fn ratio_one_color() -> Rgba8 {
    Rgba8 { r: 255, g: 0, b: 0, a: 255 }
}

/// The smallest sample of a non-empty grid (zero for an empty one).
pub open spec fn grid_min(s: Seq<i64>) -> int
    decreases s.len(),
{
    if s.len() == 0 {
        0
    } else if s.len() == 1 {
        s[0] as int
    } else {
        let m = grid_min(s.drop_last());
        if s.last() < m { s.last() as int } else { m }
    }
}

/// The largest sample of a non-empty grid (zero for an empty one).
pub open spec fn grid_max(s: Seq<i64>) -> int
    decreases s.len(),
{
    if s.len() == 0 {
        0
    } else if s.len() == 1 {
        s[0] as int
    } else {
        let m = grid_max(s.drop_last());
        if s.last() > m { s.last() as int } else { m }
    }
}

/// `num / den` scaled to `0..=255` and rounded to the nearest integer,
/// halves up.
pub open spec fn channel(num: int, den: int) -> int {
    (510 * num + den) / (2 * den)
}

/// The color of sample `v` in a grid whose extremes are `lo` and `hi`.
pub open spec fn color_of(v: int, lo: int, hi: int) -> Rgba8 {
    if hi == lo {
        ratio_zero_color()
    } else {
        Rgba8 {
            r: channel(v - lo, hi - lo) as u8,
            g: 0,
            b: channel(hi - v, hi - lo) as u8,
            a: 255,
        }
    }
}

/// The color of each sample of a grid, in the grid's order.
pub open spec fn grid_colors(s: Seq<i64>) -> Seq<Rgba8> {
    Seq::new(s.len(), |i: int| color_of(s[i] as int, grid_min(s), grid_max(s)))
}

/// The extremes of a non-empty grid are bounds of its samples, and are samples.
pub proof fn lemma_grid_bounds(s: Seq<i64>)
    requires
        s.len() > 0,
    ensures
        forall|i: int| 0 <= i < s.len() ==> grid_min(s) <= #[trigger] s[i] <= grid_max(s),
        exists|i: int| 0 <= i < s.len() && s[i] == grid_min(s),
        exists|i: int| 0 <= i < s.len() && s[i] == grid_max(s),
    decreases s.len(),
{
    if s.len() > 1 {
        let t = s.drop_last();
        lemma_grid_bounds(t);
        assert forall|i: int| 0 <= i < s.len() implies grid_min(s) <= #[trigger] s[i] <= grid_max(
            s,
        ) by {
            if i < t.len() {
                assert(s[i] == t[i]);
            }
        }
        let j = choose|j: int| 0 <= j < t.len() && t[j] == grid_min(t);
        let k = choose|k: int| 0 <= k < t.len() && t[k] == grid_max(t);
        assert(s[j] == t[j] && s[k] == t[k]);
        assert(s[s.len() - 1] == s.last());
    } else {
        assert(s[0] == grid_min(s));
    }
}

/// A channel is a byte: `0 <= channel(n, d) <= 255` for `0 <= n <= d`, with
/// `channel(0, d) == 0` and `channel(d, d) == 255`.
proof fn lemma_channel_range(n: int, d: int)
    requires
        0 <= n <= d,
        0 < d,
    ensures
        0 <= channel(n, d) <= 255,
        n == 0 ==> channel(n, d) == 0,
        n == d ==> channel(n, d) == 255,
{
    let x = 510 * n + d;
    let m = 2 * d;
    lemma_fundamental_div_mod(x, m);
    lemma_mod_pos_bound(x, m);
    let q = x / m;
    let r = x % m;
    assert(0 <= q <= 255) by (nonlinear_arith)
        requires
            x == m * q + r,
            0 <= r < m,
            d <= x <= 511 * d,
            m == 2 * d,
            d > 0,
    ;
    if n == 0 {
        assert(q == 0) by (nonlinear_arith)
            requires
                x == m * q + r,
                0 <= r < m,
                x == d,
                m == 2 * d,
                d > 0,
        ;
    }
    if n == d {
        assert(q == 255) by (nonlinear_arith)
            requires
                x == m * q + r,
                0 <= r < m,
                x == 511 * d,
                m == 2 * d,
                d > 0,
        ;
    }
}

/// Every sample of a grid whose extremes differ has a ratio in `[0, 1]`:
/// `0 <= v - lo <= hi - lo`. The smallest sample has ratio 0 and is colored
/// opaque blue; the largest has ratio 1 and is colored opaque red.
pub proof fn lemma_ratio_bounds(s: Seq<i64>)
    requires
        s.len() > 0,
        grid_min(s) != grid_max(s),
    ensures
        forall|i: int|
            0 <= i < s.len() ==> 0 <= #[trigger] s[i] - grid_min(s) <= grid_max(s) - grid_min(s),
        forall|i: int|
            0 <= i < s.len() && s[i] == grid_min(s) ==> #[trigger] grid_colors(s)[i] == ratio_zero_color(),
        forall|i: int|
            0 <= i < s.len() && s[i] == grid_max(s) ==> #[trigger] grid_colors(s)[i] == ratio_one_color(),
{
    lemma_grid_bounds(s);
    let lo = grid_min(s);
    let hi = grid_max(s);
    assert forall|i: int| 0 <= i < s.len() && s[i] == lo implies #[trigger] grid_colors(s)[i]
        == ratio_zero_color() by {
        lemma_channel_range(0, hi - lo);
        lemma_channel_range(hi - lo, hi - lo);
    }
    assert forall|i: int| 0 <= i < s.len() && s[i] == hi implies #[trigger] grid_colors(s)[i]
        == ratio_one_color() by {
        lemma_channel_range(0, hi - lo);
        lemma_channel_range(hi - lo, hi - lo);
    }
}

/// A grid whose samples are all equal is colored with the fallback color
/// throughout.
pub proof fn lemma_constant_grid_fallback(s: Seq<i64>, v: i64)
    requires
        forall|i: int| 0 <= i < s.len() ==> s[i] == v,
    ensures
        forall|i: int| 0 <= i < s.len() ==> #[trigger] grid_colors(s)[i] == ratio_zero_color(),
{
    if s.len() > 0 {
        lemma_grid_bounds(s);
        let j = choose|j: int| 0 <= j < s.len() && s[j] == grid_min(s);
        let k = choose|k: int| 0 <= k < s.len() && s[k] == grid_max(s);
        assert(s[j] == v && s[k] == v);
    }
}

/// The color map is monotonic: within a grid with extremes `lo <= hi`, a
/// larger sample never has less red nor more blue.
pub proof fn lemma_color_monotonic(v1: int, v2: int, lo: int, hi: int)
    requires
        lo <= v1 <= v2 <= hi,
    ensures
        color_of(v1, lo, hi).r <= color_of(v2, lo, hi).r,
        color_of(v1, lo, hi).b >= color_of(v2, lo, hi).b,
{
    if lo < hi {
        let d = hi - lo;
        lemma_channel_range(v1 - lo, d);
        lemma_channel_range(v2 - lo, d);
        lemma_channel_range(hi - v1, d);
        lemma_channel_range(hi - v2, d);
        lemma_div_is_ordered(510 * (v1 - lo) + d, 510 * (v2 - lo) + d, 2 * d);
        lemma_div_is_ordered(510 * (hi - v2) + d, 510 * (hi - v1) + d, 2 * d);
    }
}

/// Within one grid, a sample no smaller than another is colored with no less
/// red and no more blue.
pub proof fn lemma_grid_colors_monotonic(s: Seq<i64>, i: int, j: int)
    requires
        0 <= i < s.len(),
        0 <= j < s.len(),
        s[i] <= s[j],
    ensures
        grid_colors(s)[i].r <= grid_colors(s)[j].r,
        grid_colors(s)[i].b >= grid_colors(s)[j].b,
{
    lemma_grid_bounds(s);
    lemma_color_monotonic(s[i] as int, s[j] as int, grid_min(s), grid_max(s));
}

/// The smallest and the largest sample of a non-empty grid, found in one pass.
pub fn value_range(data: &[i64]) -> (r: (i64, i64))
    requires
        data@.len() > 0,
    ensures
        r.0 == grid_min(data@),
        r.1 == grid_max(data@),
{
    let mut lo: i64 = data[0];
    let mut hi: i64 = data[0];
    let mut i: usize = 1;
    assert(data@.take(1).drop_last() =~= Seq::<i64>::empty());
    while i < data.len()
        invariant
            1 <= i <= data@.len(),
            lo == grid_min(data@.take(i as int)),
            hi == grid_max(data@.take(i as int)),
        decreases data@.len() - i,
    {
        let v = data[i];
        assert(data@.take(i + 1).drop_last() =~= data@.take(i as int));
        assert(data@.take(i + 1).last() == v);
        if v < lo {
            lo = v;
        }
        if v > hi {
            hi = v;
        }
        i = i + 1;
    }
    assert(data@.take(i as int) =~= data@);
    (lo, hi)
}

/// `num / den` scaled to a byte, rounded to the nearest integer, halves up.
pub fn channel_value(num: u64, den: u64) -> (c: u8)
    requires
        num <= den,
        0 < den,
    ensures
        c == channel(num as int, den as int),
{
    proof {
        lemma_channel_range(num as int, den as int);
    }
    let x: u128 = 510 * (num as u128) + den as u128;
    let m: u128 = 2 * (den as u128);
    (x / m) as u8
}

/// The color of each sample, in the grid's order; a grid whose samples are
/// all equal gets the fallback color throughout.
pub fn normalize(data: &[i64]) -> (colors: Vec<Rgba8>)
    ensures
        colors@ == grid_colors(data@),
{
    let mut colors: Vec<Rgba8> = Vec::new();
    if data.len() == 0 {
        assert(colors@ =~= grid_colors(data@));
        return colors;
    }
    let (lo, hi) = value_range(data);
    proof {
        lemma_grid_bounds(data@);
    }
    let mut i: usize = 0;
    while i < data.len()
        invariant
            i <= data@.len(),
            data@.len() > 0,
            lo == grid_min(data@),
            hi == grid_max(data@),
            forall|j: int| 0 <= j < data@.len() ==> lo <= #[trigger] data@[j] <= hi,
            colors@ =~= grid_colors(data@).take(i as int),
        decreases data@.len() - i,
    {
        let v = data[i];
        let c = if lo == hi {
            Rgba8 { r: 0, g: 0, b: 255, a: 255 }
        } else {
            let d = (hi as i128 - lo as i128) as u64;
            let up = (v as i128 - lo as i128) as u64;
            let down = (hi as i128 - v as i128) as u64;
            Rgba8 { r: channel_value(up, d), g: 0, b: channel_value(down, d), a: 255 }
        };
        colors.push(c);
        i = i + 1;
    }
    colors
}

} // verus!
