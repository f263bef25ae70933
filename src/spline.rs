use vstd::arithmetic::div_mod::{lemma_mod_add_multiples_vanish, lemma_small_mod};
use vstd::prelude::*;

verus! {

/// The index that `i` stands for on a ring of `len` control points
/// (non-negative remainder, also for negative `i`).
pub open spec fn wrap(i: int, len: nat) -> int {
    i % (len as int)
}

/// How many segments a curve through `len` control points has: a closed
/// curve also joins the last point back to the first.
pub open spec fn segment_count_of(len: nat, closed: bool) -> int {
    if closed {
        len as int
    } else {
        len - 1
    }
}

/// Index of the control point before the start of segment `k`. An open curve
/// repeats its first point in front of its first segment.
pub open spec fn before_index(len: nat, closed: bool, k: int) -> int {
    if closed || k > 0 {
        wrap(k - 1, len)
    } else {
        0
    }
}

/// Index of the control point at which segment `k` starts.
pub open spec fn start_index(len: nat, k: int) -> int {
    wrap(k, len)
}

/// Index of the control point at which segment `k` ends.
pub open spec fn end_index(len: nat, k: int) -> int {
    wrap(k + 1, len)
}

/// Index of the control point after the end of segment `k`. An open curve
/// repeats its last point behind its last segment.
pub open spec fn after_index(len: nat, closed: bool, k: int) -> int {
    if closed || k + 2 < len {
        wrap(k + 2, len)
    } else {
        len - 1
    }
}

/// The four control points, by index, that shape one segment of a spline:
/// the segment runs from `start` to `end`; `before` and `after` give the
/// tangents at its two ends.
#[derive(Clone, Copy, Debug, PartialEq, Eq)]
pub struct Neighbors {
    pub before: usize,
    pub start: usize,
    pub end: usize,
    pub after: usize,
}

impl Neighbors {
    /// The indices that segment `k` of a curve through `len` points reads.
    pub open spec fn spec_of(self, len: nat, closed: bool, k: int) -> bool {
        &&& self.before == before_index(len, closed, k)
        &&& self.start == start_index(len, k)
        &&& self.end == end_index(len, k)
        &&& self.after == after_index(len, closed, k)
    }

    /// Every index names a control point.
    pub open spec fn in_range(self, len: nat) -> bool {
        &&& self.before < len
        &&& self.start < len
        &&& self.end < len
        &&& self.after < len
    }
}

/// `i` taken around a ring of `len` points, computed without overflow.
fn wrap_index(i: i128, len: usize) -> (r: usize)
    requires
        len > 0,
    ensures
        r == wrap(i as int, len as nat),
        r < len,
{
    let n: i128 = len as i128;
    match i.checked_rem_euclid(n) {
        Some(m) => m as usize,
        None => 0,
    }
}

/// The control points that shape segment `segment` of a curve through `len`
/// points, `closed` telling whether the curve joins its last point back to
/// its first. Any segment number is accepted: indices wrap around the points,
/// and an open curve repeats its end points beyond its ends.
pub fn segment_neighbors(len: usize, closed: bool, segment: i64) -> (r: Neighbors)
    requires
        len >= 2,
    ensures
        r.spec_of(len as nat, closed, segment as int),
        r.in_range(len as nat),
{
    let k: i128 = segment as i128;
    let before = if closed || segment > 0 {
        wrap_index(k - 1, len)
    } else {
        0
    };
    let after = if closed || k + 2 < len as i128 {
        wrap_index(k + 2, len)
    } else {
        len - 1
    };
    Neighbors { before, start: wrap_index(k, len), end: wrap_index(k + 1, len), after }
}

/// A spline through an ordered sequence of control points of type `P`,
/// open or closed, with a tension of type `S` that scales its tangents.
/// The control points are fixed once the spline is made.
pub struct Spline<P, S> {
    points: Vec<P>,
    closed: bool,
    tension: S,
}

impl<P, S> Spline<P, S> {
    /// The control points, in order.
    pub closed spec fn control_points(&self) -> Seq<P> {
        self.points@
    }

    /// Whether the curve joins its last control point back to its first.
    pub closed spec fn spec_closed(&self) -> bool {
        self.closed
    }

    /// The tangent scaling factor.
    pub closed spec fn spec_tension(&self) -> S {
        self.tension
    }

    /// A curve can be sampled once it has two control points.
    pub open spec fn can_sample(&self) -> bool {
        self.control_points().len() >= 2
    }

    /// A spline through `points`; nothing about them is checked here.
    pub fn new(points: Vec<P>, closed: bool, tension: S) -> (r: Self)
        ensures
            r.control_points() == points@,
            r.spec_closed() == closed,
            r.spec_tension() == tension,
    {
        Spline { points, closed, tension }
    }

    /// Number of control points.
    pub fn len(&self) -> (r: usize)
        ensures
            r == self.control_points().len(),
    {
        self.points.len()
    }

    /// Control point `i`.
    pub fn point(&self, i: usize) -> (r: &P)
        requires
            i < self.control_points().len(),
        ensures
            *r == self.control_points()[i as int],
    {
        &self.points[i]
    }

    pub fn is_closed(&self) -> (r: bool)
        ensures
            r == self.spec_closed(),
    {
        self.closed
    }

    pub fn tension(&self) -> (r: &S)
        ensures
            *r == self.spec_tension(),
    {
        &self.tension
    }

    /// Number of segments over which the parameter range 0 to 1 is spread.
    pub fn segment_count(&self) -> (r: usize)
        requires
            self.can_sample(),
        ensures
            r == segment_count_of(self.control_points().len(), self.spec_closed()),
    {
        if self.closed {
            self.points.len()
        } else {
            self.points.len() - 1
        }
    }

    /// The control points, by index, that shape segment `segment`.
    pub fn neighbors(&self, segment: i64) -> (r: Neighbors)
        requires
            self.can_sample(),
        ensures
            r.spec_of(self.control_points().len(), self.spec_closed(), segment as int),
            r.in_range(self.control_points().len()),
    {
        segment_neighbors(self.points.len(), self.closed, segment)
    }
}

/// On a closed curve, segment `k` and the segment one full turn later read
/// the same control points. Sampling at parameter 1 lands on segment `len`,
/// so the end of the loop is shaped by the same points as its start.
pub proof fn lemma_closed_neighbors_repeat(len: nat, k: int)
    requires
        len >= 2,
    ensures
        before_index(len, true, k + len) == before_index(len, true, k),
        start_index(len, k + len) == start_index(len, k),
        end_index(len, k + len) == end_index(len, k),
        after_index(len, true, k + len) == after_index(len, true, k),
{
    let m = len as int;
    lemma_mod_add_multiples_vanish(k - 1, m);
    lemma_mod_add_multiples_vanish(k, m);
    lemma_mod_add_multiples_vanish(k + 1, m);
    lemma_mod_add_multiples_vanish(k + 2, m);
    assert(k + len - 1 == (k - 1) + m);
    assert(k + len + 1 == (k + 1) + m);
    assert(k + len + 2 == (k + 2) + m);
}

/// On an open curve through `len` points, segment `i` starts at control
/// point `i`, for each `i` from 0 to `len - 1`: at weight zero, sampling at
/// `i / (len - 1)` gives that control point.
pub proof fn lemma_open_segment_starts_at_point(len: nat, i: int)
    requires
        len >= 2,
        0 <= i < len,
    ensures
        start_index(len, i) == i,
{
    lemma_small_mod(i as nat, len);
}

} // verus!
