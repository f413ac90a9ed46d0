use vstd::prelude::*;

use crate::point::{Point, lerp, interpolate};

verus! {

/// A line segment defined by a start and an end point, evaluable anywhere
/// in between by the interpolation parameter `t` in `[0, 1]`.
///
/// A line segment is a linear Bezier curve, which is why there is no
/// separate type for that case.
#[derive(Copy, Clone, Debug, PartialEq)]
pub struct LineSegment<P, const PDIM: usize> {
    pub start: P,
    pub end: P,
}

impl<P: Point, const PDIM: usize> LineSegment<P, PDIM> {
    /// The point of the segment at parameter `t`: `start + (end - start) * t`.
    pub open spec fn point_at(self, t: P::Scalar) -> P {
        lerp(self.start, self.end, t)
    }

    /// The segment from `start` to `end`.
    pub open spec fn new_spec(start: P, end: P) -> Self {
        LineSegment { start, end }
    }

    /// The part of the segment from its start to the point at `t`.
    pub open spec fn left_part(self, t: P::Scalar) -> Self {
        LineSegment { start: self.start, end: self.point_at(t) }
    }

    /// The part of the segment from the point at `t` to its end.
    pub open spec fn right_part(self, t: P::Scalar) -> Self {
        LineSegment { start: self.point_at(t), end: self.end }
    }

    pub fn new(start: P, end: P) -> (r: Self)
        ensures
            r.start == start,
            r.end == end,
    {
        LineSegment { start, end }
    }

    /// Evaluates the segment at `t` by interpolation between its end points.
    pub fn eval(&self, t: P::Scalar) -> (r: P)
        ensures
            r == self.point_at(t),
            r == self.start.spec_plus(self.end.spec_minus(self.start).spec_scale(t)),
    {
        interpolate(self.start, self.end, t)
    }

    /// Splits the segment at `t` into the part before and the part after the point at `t`.
    pub fn split(&self, t: P::Scalar) -> (r: (Self, Self))
        ensures
            r.0 == self.left_part(t),
            r.1 == self.right_part(t),
            r.0.start == self.start,
            r.0.end == self.start.spec_plus(self.end.spec_minus(self.start).spec_scale(t)),
            r.1.start == self.start.spec_plus(self.end.spec_minus(self.start).spec_scale(t)),
            r.1.end == self.end,
    {
        let ctrl_ab = interpolate(self.start, self.end, t);
        (LineSegment { start: self.start, end: ctrl_ab }, LineSegment { start: ctrl_ab, end: self.end })
    }

    /// The derivative of the segment: the vector from start to end.
    pub fn derivative(&self) -> (r: P)
        ensures
            r == self.end.spec_minus(self.start),
    {
        self.end.minus(self.start)
    }
}

/// Splitting a segment at `t` gives two segments that keep the original
/// end points and meet at the point of the segment at `t`.
pub proof fn lemma_line_split_halves_meet<P: Point, const PDIM: usize>(l: LineSegment<P, PDIM>, t: P::Scalar)
    ensures
        l.left_part(t).start == l.start,
        l.left_part(t).end == l.point_at(t),
        l.right_part(t).start == l.point_at(t),
        l.right_part(t).end == l.end,
{
}

/// The point of a segment at `t` is `start + (end - start) * t`, for every
/// segment and every `t`: the start point moved by the fraction `t` of the
/// vector from start to end.
pub proof fn lemma_line_point_at<P: Point, const PDIM: usize>(l: LineSegment<P, PDIM>, t: P::Scalar)
    ensures
        l.point_at(t) == l.start.spec_plus(l.end.spec_minus(l.start).spec_scale(t)),
        l.left_part(t).start == l.start,
        l.left_part(t).end == l.start.spec_plus(l.end.spec_minus(l.start).spec_scale(t)),
        l.right_part(t).start == l.start.spec_plus(l.end.spec_minus(l.start).spec_scale(t)),
        l.right_part(t).end == l.end,
{
}

} // verus!
