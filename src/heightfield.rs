use vstd::prelude::*;
use crate::anchor::{Anchor, PixelPoint};
use vstd::arithmetic::div_mod::{lemma_div_is_ordered, lemma_div_by_multiple};

verus! {

pub open spec fn max_x(c: Seq<PixelPoint>) -> int
    decreases c.len(),
{
    if c.len() <= 1 { if c.len() == 1 { c[0].0 as int } else { 0 } }
    else if max_x(c.drop_last()) >= c.last().0 as int { max_x(c.drop_last()) }
    else { c.last().0 as int }
}

pub open spec fn min_x(c: Seq<PixelPoint>) -> int
    decreases c.len(),
{
    if c.len() <= 1 { if c.len() == 1 { c[0].0 as int } else { 0 } }
    else if min_x(c.drop_last()) <= c.last().0 as int { min_x(c.drop_last()) }
    else { c.last().0 as int }
}

pub open spec fn max_y(c: Seq<PixelPoint>) -> int
    decreases c.len(),
{
    if c.len() <= 1 { if c.len() == 1 { c[0].1 as int } else { 0 } }
    else if max_y(c.drop_last()) >= c.last().1 as int { max_y(c.drop_last()) }
    else { c.last().1 as int }
}

pub open spec fn min_y(c: Seq<PixelPoint>) -> int
    decreases c.len(),
{
    if c.len() <= 1 { if c.len() == 1 { c[0].1 as int } else { 0 } }
    else if min_y(c.drop_last()) <= c.last().1 as int { min_y(c.drop_last()) }
    else { c.last().1 as int }
}

/// The bounding width of a contour.
pub open spec fn bounding_width(c: Seq<PixelPoint>) -> int {
    max_x(c) - min_x(c)
}

/// The bounding height of a contour.
pub open spec fn bounding_height(c: Seq<PixelPoint>) -> int {
    max_y(c) - min_y(c)
}

/// The point that closes segment `j` of a closed contour.
pub open spec fn seg_end(c: Seq<PixelPoint>, j: int) -> PixelPoint {
    if j + 1 < c.len() { c[j + 1] } else { c[0] }
}

/// Whether the segment from `p` to `q` spans the vertical line at `x`.
pub open spec fn covers(p: PixelPoint, q: PixelPoint, x: int) -> bool {
    (p.0 <= x <= q.0) || (q.0 <= x <= p.0)
}

/// Where the segment from `p` to `q` meets the vertical line at `x`, rounded down;
/// a vertical segment meets it at its upper end.
pub open spec fn cross_y(p: PixelPoint, q: PixelPoint, x: int) -> int {
    if p.0 == q.0 {
        if p.1 <= q.1 { p.1 as int } else { q.1 as int }
    } else if p.0 < q.0 {
        (p.1 as int * (q.0 - x) + q.1 as int * (x - p.0)) / (q.0 - p.0)
    } else {
        (q.1 as int * (p.0 - x) + p.1 as int * (x - q.0)) / (p.0 - q.0)
    }
}

/// The topmost crossing of the line at `x` among the first `j` segments, or the
/// bottom of the bounding box where none of them crosses it.
pub open spec fn top_upto(c: Seq<PixelPoint>, x: int, j: int) -> int
    decreases j,
{
    if j <= 0 {
        max_y(c)
    } else {
        let prev = top_upto(c, x, j - 1);
        let p = c[j - 1];
        let q = seg_end(c, j - 1);
        if covers(p, q, x) && cross_y(p, q, x) < prev { cross_y(p, q, x) } else { prev }
    }
}

/// The height of column `k`: from the bottom of the bounding box up to the topmost crossing.
pub open spec fn column_height(c: Seq<PixelPoint>, k: int) -> int {
    max_y(c) - top_upto(c, min_x(c) + k, c.len() as int)
}

/// One sample per column of the bounding width; a single zero where the width is zero.
pub open spec fn heights_of(c: Seq<PixelPoint>) -> Seq<u32> {
    if bounding_width(c) <= 0 {
        seq![0u32]
    } else {
        Seq::new(bounding_width(c) as nat, |k: int| column_height(c, k) as u32)
    }
}

/// The bounding width and height, each raised to one where it is zero.
pub open spec fn scale_of(c: Seq<PixelPoint>) -> (u32, u32) {
    (
        if bounding_width(c) >= 1 { bounding_width(c) as u32 } else { 1 },
        if bounding_height(c) >= 1 { bounding_height(c) as u32 } else { 1 },
    )
}

/// The crossing of the segment from `p` to `q` with the line at `x`.
fn crossing(p: PixelPoint, q: PixelPoint, x: u32) -> (r: u128)
    requires
        covers(p, q, x as int),
    ensures
        r as int == cross_y(p, q, x as int),
{
    if p.0 == q.0 {
        if p.1 <= q.1 { p.1 as u128 } else { q.1 as u128 }
    } else {
        let (a, b) = if p.0 < q.0 { (p, q) } else { (q, p) };
        let l = (b.0 - x) as u128;
        let m = (x - a.0) as u128;
        proof {
            let ay = a.1 as int;
            let by_ = b.1 as int;
            assert(ay * (l as int) <= 0xffff_ffff * 0xffff_ffff) by (nonlinear_arith)
                requires 0 <= ay <= 0xffff_ffff, 0 <= l <= 0xffff_ffff;
            assert(by_ * (m as int) <= 0xffff_ffff * 0xffff_ffff) by (nonlinear_arith)
                requires 0 <= by_ <= 0xffff_ffff, 0 <= m <= 0xffff_ffff;
        }
        let num = (a.1 as u128) * l + (b.1 as u128) * m;
        num / ((b.0 - a.0) as u128)
    }
}

/// Reduces a contour to a height profile and a scale.
///
/// Column `k` lies at `x = min_x + k`; its sample is the distance from the bottom of the
/// bounding box up to the topmost point where the closed contour crosses that line, so
/// overhangs and holes below it are lost. A contour of zero width gives the single sample
/// zero. The scale is the bounding box's width and height, each at least one. Heights are
/// measured from the box itself, so the anchor moves neither the samples nor the scale.
pub fn heights_and_scale(contour: &Vec<PixelPoint>, anchor: Anchor) -> (r: (Vec<u32>, (u32, u32)))
    ensures
        r.0@ == heights_of(contour@),
        r.1 == scale_of(contour@),
{
    let n = contour.len();
    if n == 0 {
        proof {
            assert(heights_of(contour@) =~= seq![0u32]);
        }
        return (vec![0], (1, 1));
    }
    let mut lo: u32 = contour[0].0;
    let mut hi: u32 = contour[0].0;
    let mut top: u32 = contour[0].1;
    let mut bottom: u32 = contour[0].1;
    let mut i: usize = 1;
    proof {
        assert(contour@.subrange(0, 1).len() == 1);
    }
    while i < n
        invariant
            1 <= i <= n,
            n == contour@.len(),
            lo as int == min_x(contour@.subrange(0, i as int)),
            hi as int == max_x(contour@.subrange(0, i as int)),
            top as int == min_y(contour@.subrange(0, i as int)),
            bottom as int == max_y(contour@.subrange(0, i as int)),
            lo <= hi,
            top <= bottom,
        decreases n - i,
    {
        let p = contour[i];
        proof {
            assert(contour@.subrange(0, i + 1).drop_last() =~= contour@.subrange(0, i as int));
        }
        if p.0 < lo { lo = p.0; }
        if p.0 > hi { hi = p.0; }
        if p.1 < top { top = p.1; }
        if p.1 > bottom { bottom = p.1; }
        i = i + 1;
    }
    proof {
        assert(contour@.subrange(0, n as int) =~= contour@);
    }
    let w: u32 = hi - lo;
    let hgt: u32 = bottom - top;
    let sy: u32 = if hgt >= 1 { hgt } else { 1 };
    if w == 0 {
        proof {
            assert(heights_of(contour@) =~= seq![0u32]);
        }
        return (vec![0], (1, sy));
    }
    let mut heights: Vec<u32> = Vec::new();
    let mut c: u32 = 0;
    while c < w
        invariant
            c <= w,
            w as int == bounding_width(contour@),
            lo as int == min_x(contour@),
            bottom as int == max_y(contour@),
            lo as int + w as int <= u32::MAX,
            n == contour@.len(),
            heights@.len() == c,
            forall|k: int| 0 <= k < c ==> heights@[k] == #[trigger] column_height(contour@, k) as u32,
        decreases w - c,
    {
        let cx: u32 = lo + c;
        let mut best: u32 = bottom;
        let mut j: usize = 0;
        while j < n
            invariant
                j <= n,
                n == contour@.len(),
                bottom as int == max_y(contour@),
                best <= bottom,
                best as int == top_upto(contour@, cx as int, j as int),
            decreases n - j,
        {
            let p = contour[j];
            let q = if j + 1 < n { contour[j + 1] } else { contour[0] };
            let spans = (p.0 <= cx && cx <= q.0) || (q.0 <= cx && cx <= p.0);
            if spans {
                let y = crossing(p, q, cx);
                if y < best as u128 {
                    best = y as u32;
                }
            }
            j = j + 1;
        }
        heights.push(bottom - best);
        c = c + 1;
    }
    proof {
        assert(heights@ =~= heights_of(contour@));
    }
    (heights, (w, sy))
}

proof fn lemma_y_within(c: Seq<PixelPoint>, i: int)
    requires
        0 <= i < c.len(),
    ensures
        min_y(c) <= c[i].1 <= max_y(c),
    decreases c.len(),
{
    if c.len() > 1 && i < c.len() - 1 {
        lemma_y_within(c.drop_last(), i);
    }
}

proof fn lemma_y_range(c: Seq<PixelPoint>)
    ensures
        0 <= min_y(c),
        max_y(c) <= u32::MAX,
    decreases c.len(),
{
    if c.len() > 1 {
        lemma_y_range(c.drop_last());
    }
}

proof fn lemma_between(lo: int, hi: int, a: int, b: int, d: int, t: int)
    requires
        0 <= lo <= a,
        lo <= b,
        a <= hi,
        b <= hi,
        0 <= t <= d,
        0 < d,
    ensures
        lo <= (a * (d - t) + b * t) / d <= hi,
{
    assert(lo * d <= a * (d - t) + b * t <= hi * d) by (nonlinear_arith)
        requires 0 <= lo <= a, lo <= b, a <= hi, b <= hi, 0 <= t <= d;
    lemma_div_is_ordered(lo * d, a * (d - t) + b * t, d);
    lemma_div_is_ordered(a * (d - t) + b * t, hi * d, d);
    lemma_div_by_multiple(lo, d);
    lemma_div_by_multiple(hi, d);
}

proof fn lemma_cross_within(p: PixelPoint, q: PixelPoint, x: int, lo: int, hi: int)
    requires
        covers(p, q, x),
        0 <= lo <= p.1 <= hi,
        lo <= q.1 <= hi,
    ensures
        lo <= cross_y(p, q, x) <= hi,
{
    if p.0 < q.0 {
        lemma_between(lo, hi, p.1 as int, q.1 as int, q.0 - p.0, x - p.0);
        assert(q.0 - x == (q.0 - p.0) - (x - p.0));
    } else if q.0 < p.0 {
        lemma_between(lo, hi, q.1 as int, p.1 as int, p.0 - q.0, x - q.0);
        assert(p.0 - x == (p.0 - q.0) - (x - q.0));
    }
}

proof fn lemma_top_within(c: Seq<PixelPoint>, x: int, j: int)
    requires
        0 <= j <= c.len(),
        c.len() >= 1,
    ensures
        min_y(c) <= top_upto(c, x, j) <= max_y(c),
    decreases j,
{
    lemma_y_within(c, 0);
    lemma_y_range(c);
    if j > 0 {
        lemma_top_within(c, x, j - 1);
        let p = c[j - 1];
        let q = seg_end(c, j - 1);
        lemma_y_within(c, j - 1);
        if j < c.len() {
            lemma_y_within(c, j);
        }
        if covers(p, q, x) {
            lemma_cross_within(p, q, x, min_y(c), max_y(c));
        }
    }
}

/// Every heightfield sample lies between zero and the contour's bounding height.
pub proof fn heights_within_box(c: Seq<PixelPoint>, k: int)
    requires
        0 <= k < heights_of(c).len(),
    ensures
        0 <= heights_of(c)[k] <= bounding_height(c),
{
    if bounding_width(c) > 0 {
        assert(c.len() >= 1);
        lemma_top_within(c, min_x(c) + k, c.len() as int);
        lemma_y_range(c);
        assert(0 <= column_height(c, k) <= u32::MAX);
    }
}

} // verus!
