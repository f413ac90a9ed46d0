use vstd::prelude::*;

verus! {

/// The point abstraction the curves are built on.
///
/// A point type offers addition and subtraction of points, scaling by a
/// scalar, access to its coordinates and its squared euclidean length.
/// The spec functions name what the operations compute for this type; each
/// operation is tied to its spec function by its `ensures`.  An implementation
/// outside verified code gives each `spec_*` function the body of the
/// operation it names.
pub trait Point: Copy + Sized {
    /// The scalar type of the coordinates and of the curve parameter.
    type Scalar: Copy;

    /// The point `self + other`.
    spec fn spec_plus(self, other: Self) -> Self;

    /// The point `self - other`.
    spec fn spec_minus(self, other: Self) -> Self;

    /// The point `self * factor`.
    spec fn spec_scale(self, factor: Self::Scalar) -> Self;

    /// The scalar with the value of the small count `n`.
    spec fn spec_scalar_from_u8(n: u8) -> Self::Scalar;

    /// Adds two points coordinate by coordinate.
    fn plus(self, other: Self) -> (r: Self)
        ensures
            r == self.spec_plus(other),
    ;

    /// Subtracts `other` from `self` coordinate by coordinate.
    fn minus(self, other: Self) -> (r: Self)
        ensures
            r == self.spec_minus(other),
    ;

    /// Multiplies every coordinate by `factor`.
    fn scale(self, factor: Self::Scalar) -> (r: Self)
        ensures
            r == self.spec_scale(factor),
    ;

    /// The scalar with the value `n`, such as the factor 3 of a cubic derivative.
    fn scalar_from_u8(n: u8) -> (r: Self::Scalar)
        ensures
            r == Self::spec_scalar_from_u8(n),
    ;

    /// The coordinate of the point on axis `index`.
    fn axis(&self, index: usize) -> Self::Scalar;

    /// The squared euclidean length of the point seen as a vector.
    fn squared_length(&self) -> Self::Scalar;
}

/// Linear interpolation from `a` towards `b` with parameter `t`: `a + (b - a) * t`.
pub open spec fn lerp<P: Point>(a: P, b: P, t: P::Scalar) -> P {
    a.spec_plus(b.spec_minus(a).spec_scale(t))
}

/// `p * n` for the small count `n`.
pub open spec fn times<P: Point>(p: P, n: u8) -> P {
    p.spec_scale(P::spec_scalar_from_u8(n))
}

/// `a + (b - a) * t`, computed with the point operations.
pub fn interpolate<P: Point>(a: P, b: P, t: P::Scalar) -> (r: P)
    ensures
        r == lerp(a, b, t),
        r == a.spec_plus(b.spec_minus(a).spec_scale(t)),
{
    a.plus(b.minus(a).scale(t))
}

} // verus!
