//! The history of reported losses.

use vstd::prelude::*;

verus! {

/// Upper bound on the number of points retained. When it is reached the older half of the history
/// is thinned out (every other point dropped) instead of dropping the oldest points, so the full
/// range of steps is always represented while memory stays bounded. Recent points keep full
/// resolution; older ones get progressively coarser.
pub const MAX_LOSS_HISTORY: usize = 5000;

/// The bits of the smallest IEEE single that is not finite.
pub const SINGLE_INFINITY: u32 = 0x7f80_0000;

/// A loss that a witness reported. Fractions are given by the bits of IEEE singles.
#[derive(Debug, Clone, Copy)]
pub struct LossPoint {
    pub step: u32,
    pub tokens_processed: u64,
    pub loss: u32,
    pub tokens_per_sec: u32,
    pub unix_timestamp: u64,
}

/// The IEEE single with these bits is neither infinite nor not a number.
pub open spec fn is_finite(bits: u32) -> bool {
    bits % 0x8000_0000 < SINGLE_INFINITY
}

/// The IEEE single with these bits is finite and greater than zero.
pub open spec fn is_finite_positive(bits: u32) -> bool {
    0 < bits < SINGLE_INFINITY
}

/// Whether the IEEE single with these bits is neither infinite nor not a number.
pub fn single_is_finite(bits: u32) -> (r: bool)
    ensures
        r == is_finite(bits),
{
    bits % 0x8000_0000 < SINGLE_INFINITY
}

/// Whether the IEEE single with these bits is finite and greater than zero.
pub fn single_is_finite_positive(bits: u32) -> (r: bool)
    ensures
        r == is_finite_positive(bits),
{
    0 < bits && bits < SINGLE_INFINITY
}

/// Every other point of `s`, beginning with the first.
pub open spec fn every_other<T>(s: Seq<T>) -> Seq<T> {
    Seq::new(((s.len() + 1) / 2) as nat, |i: int| s[2 * i])
}

/// The history with its older half thinned out.
pub open spec fn thinned<T>(s: Seq<T>) -> Seq<T> {
    let mid = s.len() as int / 2;
    every_other(s.take(mid)) + s.skip(mid)
}

/// The history after one more point.
pub open spec fn history_after<T>(s: Seq<T>, point: T) -> Seq<T> {
    if s.len() >= MAX_LOSS_HISTORY {
        thinned(s).push(point)
    } else {
        s.push(point)
    }
}

/// Adds a point to the history, thinning it out where it is full.
pub fn push_loss_point(history: &mut Vec<LossPoint>, point: LossPoint)
    ensures
        final(history)@ == history_after(old(history)@, point),
{
    let ghost s = history@;
    if history.len() >= MAX_LOSS_HISTORY {
        let n: usize = history.len();
        let mid: usize = n / 2;
        let mut kept: Vec<LossPoint> = Vec::new();
        let mut i: usize = 0;
        while i < mid
            invariant
                history@ == s,
                mid <= s.len(),
                s.len() <= usize::MAX,
                i <= mid + 1,
                mid < usize::MAX - 1,
                i == 2 * kept@.len(),
                kept@ == every_other(s.take(mid as int)).take(kept@.len() as int),
                kept@.len() <= every_other(s.take(mid as int)).len(),
            decreases mid + 1 - i,
        {
            let ghost e = every_other(s.take(mid as int));
            let ghost k = kept@.len() as int;
            assert(e[k] == s[2 * k]);
            kept.push(history[i]);
            assert(kept@ =~= e.take(k + 1));
            i = i + 2;
        }
        assert(kept@ =~= every_other(s.take(mid as int)));
        let mut j: usize = mid;
        while j < n
            invariant
                history@ == s,
                mid <= j <= n == s.len(),
                kept@ == every_other(s.take(mid as int)) + s.subrange(mid as int, j as int),
            decreases n - j,
        {
            kept.push(history[j]);
            assert(s.subrange(mid as int, j as int + 1) =~= s.subrange(mid as int, j as int).push(
                s[j as int],
            ));
            j = j + 1;
            assert(kept@ =~= every_other(s.take(mid as int)) + s.subrange(mid as int, j as int));
        }
        assert(s.subrange(mid as int, n as int) =~= s.skip(mid as int));
        assert(kept@ =~= thinned(s));
        *history = kept;
    }
    history.push(point);
}

/// Memory stays bounded: a history within the bound stays within it.
pub proof fn law_history_is_bounded<T>(s: Seq<T>, point: T)
    requires
        s.len() <= MAX_LOSS_HISTORY,
    ensures
        history_after(s, point).len() <= MAX_LOSS_HISTORY,
{
}

/// The full range is represented: the first point ever taken stays first, and the newest is last.
pub proof fn law_history_spans_all_steps<T>(s: Seq<T>, point: T)
    ensures
        s.len() > 0 ==> history_after(s, point).first() == s.first(),
        history_after(s, point).last() == point,
{
}

/// Recent points keep full resolution: the newer half stays whole, just before the new point.
pub proof fn law_recent_history_is_whole<T>(s: Seq<T>, point: T)
    ensures
        s.skip(s.len() as int / 2).is_suffix_of(history_after(s, point).drop_last()),
{
    let newer = s.skip(s.len() as int / 2);
    let older = history_after(s, point).drop_last();
    assert(older.skip(older.len() - newer.len()) =~= newer);
}

/// No point is made up, and the order of points stays: what is kept of a history is a choice of its
/// points at ascending places.
pub proof fn law_history_keeps_order<T>(s: Seq<T>, point: T, i: int, j: int)
    requires
        0 <= i < j < history_after(s, point).len() - 1,
    ensures
        exists|a: int, b: int|
            0 <= a < b < s.len() && history_after(s, point)[i] == #[trigger] s[a]
                && history_after(s, point)[j] == #[trigger] s[b],
{
    let mid = s.len() as int / 2;
    let e = every_other(s.take(mid)).len() as int;
    if s.len() >= MAX_LOSS_HISTORY {
        let a = if i < e { 2 * i } else { i - e + mid };
        let b = if j < e { 2 * j } else { j - e + mid };
        assert(history_after(s, point)[i] == s[a]);
        assert(history_after(s, point)[j] == s[b]);
        assert(0 <= a < b < s.len());
    } else {
        assert(history_after(s, point)[i] == s[i]);
        assert(history_after(s, point)[j] == s[j]);
    }
}

// Choices of points

/// The points whose loss is finite.
pub open spec fn finite_losses(s: Seq<LossPoint>) -> Seq<LossPoint> {
    s.filter(|p: LossPoint| is_finite(p.loss))
}

/// The points whose throughput is finite and positive.
pub open spec fn positive_throughputs(s: Seq<LossPoint>) -> Seq<LossPoint> {
    s.filter(|p: LossPoint| is_finite_positive(p.tokens_per_sec))
}

/// The points whose loss is finite.
pub fn points_with_finite_loss(history: &Vec<LossPoint>) -> (r: Vec<LossPoint>)
    ensures
        r@ == finite_losses(history@),
{
    let ghost keep = |p: LossPoint| is_finite(p.loss);
    let mut out: Vec<LossPoint> = Vec::new();
    let mut i: usize = 0;
    reveal(Seq::filter);
    while i < history.len()
        invariant
            i <= history@.len(),
            keep == (|p: LossPoint| is_finite(p.loss)),
            out@ == history@.take(i as int).filter(keep),
        decreases history@.len() - i,
    {
        proof {
            reveal(Seq::filter);
            let t = history@.take(i as int + 1);
            assert(t.drop_last() =~= history@.take(i as int));
            assert(t.last() == history@[i as int]);
        }
        if single_is_finite(history[i].loss) {
            out.push(history[i]);
        }
        i = i + 1;
    }
    assert(history@.take(i as int) =~= history@);
    out
}

/// The points whose throughput is finite and positive.
pub fn points_with_positive_throughput(history: &Vec<LossPoint>) -> (r: Vec<LossPoint>)
    ensures
        r@ == positive_throughputs(history@),
{
    let ghost keep = |p: LossPoint| is_finite_positive(p.tokens_per_sec);
    let mut out: Vec<LossPoint> = Vec::new();
    let mut i: usize = 0;
    reveal(Seq::filter);
    while i < history.len()
        invariant
            i <= history@.len(),
            keep == (|p: LossPoint| is_finite_positive(p.tokens_per_sec)),
            out@ == history@.take(i as int).filter(keep),
        decreases history@.len() - i,
    {
        proof {
            reveal(Seq::filter);
            let t = history@.take(i as int + 1);
            assert(t.drop_last() =~= history@.take(i as int));
            assert(t.last() == history@[i as int]);
        }
        if single_is_finite_positive(history[i].tokens_per_sec) {
            out.push(history[i]);
        }
        i = i + 1;
    }
    assert(history@.take(i as int) =~= history@);
    out
}

/// The seconds from `a` to `b`, at least one.
pub open spec fn gap(a: LossPoint, b: LossPoint) -> u64 {
    if b.unix_timestamp > a.unix_timestamp {
        (b.unix_timestamp - a.unix_timestamp) as u64
    } else {
        1
    }
}

/// How long point `i` stands for: the seconds to the next point, or for the last point those since
/// the point before; at least one.
pub open spec fn weight(s: Seq<LossPoint>, i: int) -> u64 {
    if i + 1 < s.len() {
        gap(s[i], s[i + 1])
    } else if i > 0 {
        gap(s[i - 1], s[i])
    } else {
        1
    }
}

fn seconds_apart(a: &LossPoint, b: &LossPoint) -> (r: u64)
    ensures
        r == gap(*a, *b),
{
    let secs: u64 = b.unix_timestamp.saturating_sub(a.unix_timestamp);
    if secs < 1 {
        1
    } else {
        secs
    }
}

/// By how much each point counts in an average over time.
pub fn throughput_weights(points: &Vec<LossPoint>) -> (r: Vec<u64>)
    ensures
        r@.len() == points@.len(),
        forall|i: int| 0 <= i < r@.len() ==> #[trigger] r@[i] == weight(points@, i),
{
    let mut out: Vec<u64> = Vec::new();
    let mut i: usize = 0;
    while i < points.len()
        invariant
            i <= points@.len(),
            out@.len() == i,
            forall|k: int| 0 <= k < i ==> #[trigger] out@[k] == weight(points@, k),
        decreases points@.len() - i,
    {
        let w: u64 = if i + 1 < points.len() {
            seconds_apart(&points[i], &points[i + 1])
        } else if i > 0 {
            seconds_apart(&points[i - 1], &points[i])
        } else {
            1
        };
        out.push(w);
        i = i + 1;
    }
    out
}

/// Every point counts.
pub proof fn law_weights_are_positive(s: Seq<LossPoint>, i: int)
    requires
        0 <= i < s.len(),
    ensures
        weight(s, i) >= 1,
{
}

/// When the history is full, every other point of its older half is kept, beginning with the first, and
/// all of its newer half.
pub proof fn law_the_older_half_is_thinned<T>(s: Seq<T>, point: T, i: int)
    requires
        s.len() >= 5000,
    ensures
        ({
            let mid = s.len() as int / 2;
            let kept = (mid + 1) / 2;
            let after = history_after(s, point);
            &&& after.len() == kept + (s.len() - mid) + 1
            &&& 0 <= i < kept ==> after[i] == s[2 * i]
            &&& mid <= i < s.len() ==> after[kept + i - mid] == s[i]
            &&& after.last() == point
        }),
{
}

/// Until the history is full, a point is added behind all others.
pub proof fn law_points_are_added_at_the_end<T>(s: Seq<T>, point: T)
    requires
        s.len() < 5000,
    ensures
        history_after(s, point) == s.push(point),
{
}

} // verus!
