use vstd::prelude::*;

use crate::line::LineSegment;
use crate::point::{Point, times};

verus! {

/// A quadratic Bezier curve defined by a start point, one control point and an end point.
#[derive(Copy, Clone, Debug, PartialEq)]
pub struct QuadraticBezier<P, const PDIM: usize> {
    pub start: P,
    pub ctrl: P,
    pub end: P,
}

impl<P: Point, const PDIM: usize> QuadraticBezier<P, PDIM> {
    /// The derivative curve: a line segment from `2 * (ctrl - start)` to `2 * (end - ctrl)`.
    pub fn derivative(&self) -> (r: LineSegment<P, PDIM>)
        ensures
            r.start == times(self.ctrl.spec_minus(self.start), 2),
            r.end == times(self.end.spec_minus(self.ctrl), 2),
            r.start == self.ctrl.spec_minus(self.start).spec_scale(P::spec_scalar_from_u8(2)),
            r.end == self.end.spec_minus(self.ctrl).spec_scale(P::spec_scalar_from_u8(2)),
    {
        let two = P::scalar_from_u8(2);
        LineSegment { start: self.ctrl.minus(self.start).scale(two), end: self.end.minus(self.ctrl).scale(two) }
    }
}

} // verus!
