use vstd::prelude::*;

use crate::line::LineSegment;
use crate::point::{Point, lerp, times, interpolate};
use crate::quadratic_bezier::QuadraticBezier;

verus! {

/// A cubic Bezier curve defined by four points: the starting point, two
/// successive control points and the ending point.
///
/// The curve is `P(t) = (1 - t)³ start + 3 (1 - t)² t ctrl1 + 3 t² (1 - t) ctrl2 + t³ end`
/// for `t` in `[0, 1]`.
#[derive(Copy, Clone, Debug, PartialEq)]
pub struct CubicBezier<P, const PDIM: usize> {
    pub start: P,
    pub ctrl1: P,
    pub ctrl2: P,
    pub end: P,
}

impl<P: Point, const PDIM: usize> CubicBezier<P, PDIM> {
    /// First de Casteljau level at `t`: interpolations between neighbouring control points.
    pub open spec fn level1(self, t: P::Scalar) -> (P, P, P) {
        (lerp(self.start, self.ctrl1, t), lerp(self.ctrl1, self.ctrl2, t), lerp(self.ctrl2, self.end, t))
    }

    /// Second de Casteljau level at `t`.
    pub open spec fn level2(self, t: P::Scalar) -> (P, P) {
        let (ab, bc, cd) = self.level1(t);
        (lerp(ab, bc, t), lerp(bc, cd, t))
    }

    /// The point of the curve at `t` as de Casteljau's construction gives it.
    pub open spec fn point_at(self, t: P::Scalar) -> P {
        let (abc, bcd) = self.level2(t);
        lerp(abc, bcd, t)
    }

    /// The part of the curve from its start to the point at `t`.
    pub open spec fn left_part(self, t: P::Scalar) -> Self {
        CubicBezier {
            start: self.start,
            ctrl1: self.level1(t).0,
            ctrl2: self.level2(t).0,
            end: self.point_at(t),
        }
    }

    /// The part of the curve from the point at `t` to its end.
    pub open spec fn right_part(self, t: P::Scalar) -> Self {
        CubicBezier {
            start: self.point_at(t),
            ctrl1: self.level2(t).1,
            ctrl2: self.level1(t).2,
            end: self.end,
        }
    }

    pub fn new(start: P, ctrl1: P, ctrl2: P, end: P) -> (r: Self)
        ensures
            r.start == start,
            r.ctrl1 == ctrl1,
            r.ctrl2 == ctrl2,
            r.end == end,
    {
        CubicBezier { start, ctrl1, ctrl2, end }
    }

    /// Evaluates the curve at `t` with de Casteljau's algorithm.
    pub fn eval_casteljau(&self, t: P::Scalar) -> (r: P)
        ensures
            r == self.point_at(t),
            ({
                let ab = self.start.spec_plus(self.ctrl1.spec_minus(self.start).spec_scale(t));
                let bc = self.ctrl1.spec_plus(self.ctrl2.spec_minus(self.ctrl1).spec_scale(t));
                let cd = self.ctrl2.spec_plus(self.end.spec_minus(self.ctrl2).spec_scale(t));
                let abc = ab.spec_plus(bc.spec_minus(ab).spec_scale(t));
                let bcd = bc.spec_plus(cd.spec_minus(bc).spec_scale(t));
                let p = abc.spec_plus(bcd.spec_minus(abc).spec_scale(t));
                r == p
            }),
    {
        let ctrl_1ab = interpolate(self.start, self.ctrl1, t);
        let ctrl_1bc = interpolate(self.ctrl1, self.ctrl2, t);
        let ctrl_1cd = interpolate(self.ctrl2, self.end, t);
        let ctrl_2ab = interpolate(ctrl_1ab, ctrl_1bc, t);
        let ctrl_2bc = interpolate(ctrl_1bc, ctrl_1cd, t);
        interpolate(ctrl_2ab, ctrl_2bc, t)
    }

    /// The four control points in order: start, ctrl1, ctrl2, end.
    pub fn control_points(&self) -> (r: [P; 4])
        ensures
            r@ == seq![self.start, self.ctrl1, self.ctrl2, self.end],
    {
        [self.start, self.ctrl1, self.ctrl2, self.end]
    }

    /// Splits the curve at `t` into two cubic curves, by de Casteljau's construction.
    pub fn split(&self, t: P::Scalar) -> (r: (Self, Self))
        ensures
            r.0 == self.left_part(t),
            r.1 == self.right_part(t),
            r.0.start == self.start,
            r.0.end == self.point_at(t),
            r.1.start == self.point_at(t),
            r.1.end == self.end,
            ({
                let ab = self.start.spec_plus(self.ctrl1.spec_minus(self.start).spec_scale(t));
                let bc = self.ctrl1.spec_plus(self.ctrl2.spec_minus(self.ctrl1).spec_scale(t));
                let cd = self.ctrl2.spec_plus(self.end.spec_minus(self.ctrl2).spec_scale(t));
                let abc = ab.spec_plus(bc.spec_minus(ab).spec_scale(t));
                let bcd = bc.spec_plus(cd.spec_minus(bc).spec_scale(t));
                let p = abc.spec_plus(bcd.spec_minus(abc).spec_scale(t));
                &&& r.0.ctrl1 == ab
                &&& r.0.ctrl2 == abc
                &&& r.0.end == p
                &&& r.1.start == p
                &&& r.1.ctrl1 == bcd
                &&& r.1.ctrl2 == cd
            }),
    {
        let ctrl_1ab = interpolate(self.start, self.ctrl1, t);
        let ctrl_1bc = interpolate(self.ctrl1, self.ctrl2, t);
        let ctrl_1cd = interpolate(self.ctrl2, self.end, t);
        let ctrl_2ab = interpolate(ctrl_1ab, ctrl_1bc, t);
        let ctrl_2bc = interpolate(ctrl_1bc, ctrl_1cd, t);
        let ctrl_3ab = interpolate(ctrl_2ab, ctrl_2bc, t);
        (
            CubicBezier { start: self.start, ctrl1: ctrl_1ab, ctrl2: ctrl_2ab, end: ctrl_3ab },
            CubicBezier { start: ctrl_3ab, ctrl1: ctrl_2bc, ctrl2: ctrl_1cd, end: self.end },
        )
    }

    /// The derivative curve, a quadratic Bezier curve whose control points are
    /// the differences of neighbouring control points multiplied by 3.
    pub fn derivative(&self) -> (r: QuadraticBezier<P, PDIM>)
        ensures
            r.start == times(self.ctrl1.spec_minus(self.start), 3),
            r.ctrl == times(self.ctrl2.spec_minus(self.ctrl1), 3),
            r.end == times(self.end.spec_minus(self.ctrl2), 3),
            r.start == self.ctrl1.spec_minus(self.start).spec_scale(P::spec_scalar_from_u8(3)),
            r.ctrl == self.ctrl2.spec_minus(self.ctrl1).spec_scale(P::spec_scalar_from_u8(3)),
            r.end == self.end.spec_minus(self.ctrl2).spec_scale(P::spec_scalar_from_u8(3)),
    {
        let three = P::scalar_from_u8(3);
        QuadraticBezier {
            start: self.ctrl1.minus(self.start).scale(three),
            ctrl: self.ctrl2.minus(self.ctrl1).scale(three),
            end: self.end.minus(self.ctrl2).scale(three),
        }
    }

    /// The straight line from the start point to the end point.
    pub fn baseline(&self) -> (r: LineSegment<P, PDIM>)
        ensures
            r.start == self.start,
            r.end == self.end,
    {
        LineSegment { start: self.start, end: self.end }
    }
}

/// Splitting a curve at `t` gives two curves that keep the original end
/// points and meet at the point of the curve at `t`; the left part starts
/// like the curve, and the right part ends like it.
pub proof fn lemma_split_halves_meet<P: Point, const PDIM: usize>(c: CubicBezier<P, PDIM>, t: P::Scalar)
    ensures
        c.left_part(t).start == c.start,
        c.left_part(t).end == c.point_at(t),
        c.right_part(t).start == c.point_at(t),
        c.right_part(t).end == c.end,
        c.left_part(t).end == c.right_part(t).start,
{
}

/// de Casteljau's construction, for every curve (of any dimension parameter)
/// and every `t`: with `ab`, `bc`, `cd` the points at `t` on the sides
/// start-ctrl1, ctrl1-ctrl2, ctrl2-end of the control polygon, and `abc`,
/// `bcd` the points at `t` on ab-bc and bc-cd, the point of the curve at `t`
/// is `abc + (bcd - abc) * t`; the left part of the split at `t` has control
/// points start, ab, abc and that point, and the right part has that point,
/// bcd, cd and end.
pub proof fn lemma_de_casteljau<P: Point, const PDIM: usize>(c: CubicBezier<P, PDIM>, t: P::Scalar)
    ensures
        ({
            let ab = c.start.spec_plus(c.ctrl1.spec_minus(c.start).spec_scale(t));
            let bc = c.ctrl1.spec_plus(c.ctrl2.spec_minus(c.ctrl1).spec_scale(t));
            let cd = c.ctrl2.spec_plus(c.end.spec_minus(c.ctrl2).spec_scale(t));
            let abc = ab.spec_plus(bc.spec_minus(ab).spec_scale(t));
            let bcd = bc.spec_plus(cd.spec_minus(bc).spec_scale(t));
            let p = abc.spec_plus(bcd.spec_minus(abc).spec_scale(t));
            &&& c.point_at(t) == p
            &&& c.left_part(t).start == c.start
            &&& c.left_part(t).ctrl1 == ab
            &&& c.left_part(t).ctrl2 == abc
            &&& c.left_part(t).end == p
            &&& c.right_part(t).start == p
            &&& c.right_part(t).ctrl1 == bcd
            &&& c.right_part(t).ctrl2 == cd
            &&& c.right_part(t).end == c.end
        }),
{
}

/// Splitting a curve at `t` relates to evaluating line segments at `t`: the
/// left part's first inner control point is the point at `t` of the segment
/// from start to ctrl1, the right part's second inner control point is the
/// point at `t` of the segment from ctrl2 to end, and the point of the curve
/// at `t` is the point at `t` of the segment between the two inner control
/// points next to it (left ctrl2 and right ctrl1).
pub proof fn lemma_split_on_segments<P: Point, const PDIM: usize>(c: CubicBezier<P, PDIM>, t: P::Scalar)
    ensures
        c.left_part(t).ctrl1 == LineSegment::<P, PDIM>::new_spec(c.start, c.ctrl1).point_at(t),
        c.right_part(t).ctrl2 == LineSegment::<P, PDIM>::new_spec(c.ctrl2, c.end).point_at(t),
        c.point_at(t) == LineSegment::<P, PDIM>::new_spec(c.left_part(t).ctrl2, c.right_part(t).ctrl1).point_at(t),
{
    lemma_de_casteljau(c, t);
    crate::line::lemma_line_point_at(LineSegment::<P, PDIM>::new_spec(c.start, c.ctrl1), t);
    crate::line::lemma_line_point_at(LineSegment::<P, PDIM>::new_spec(c.ctrl2, c.end), t);
    crate::line::lemma_line_point_at(
        LineSegment::<P, PDIM>::new_spec(c.left_part(t).ctrl2, c.right_part(t).ctrl1),
        t,
    );
}

} // verus!
