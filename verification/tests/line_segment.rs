use stroke::{LineSegment, Point};

const EPSILON: f64 = f64::EPSILON;

#[derive(Copy, Clone, Debug, PartialEq)]
struct P3([f64; 3]);

impl Point for P3 {
    type Scalar = f64;
    fn spec_plus(self, other: Self) -> Self {
        self.plus(other)
    }
    fn spec_minus(self, other: Self) -> Self {
        self.minus(other)
    }
    fn spec_scale(self, factor: f64) -> Self {
        self.scale(factor)
    }
    fn plus(self, other: Self) -> Self {
        P3([self.0[0] + other.0[0], self.0[1] + other.0[1], self.0[2] + other.0[2]])
    }
    fn minus(self, other: Self) -> Self {
        P3([self.0[0] - other.0[0], self.0[1] - other.0[1], self.0[2] - other.0[2]])
    }
    fn scale(self, factor: f64) -> Self {
        P3([self.0[0] * factor, self.0[1] * factor, self.0[2] * factor])
    }
    fn spec_scalar_from_u8(n: u8) -> f64 {
        f64::from(n)
    }
    fn scalar_from_u8(n: u8) -> f64 {
        f64::from(n)
    }
    fn axis(&self, index: usize) -> f64 {
        self.0[index]
    }
    fn squared_length(&self) -> f64 {
        self.0.iter().map(|x| x * x).sum()
    }
}

#[derive(Copy, Clone, Debug, PartialEq)]
struct P2([f64; 2]);

impl Point for P2 {
    type Scalar = f64;
    fn spec_plus(self, other: Self) -> Self {
        self.plus(other)
    }
    fn spec_minus(self, other: Self) -> Self {
        self.minus(other)
    }
    fn spec_scale(self, factor: f64) -> Self {
        self.scale(factor)
    }
    fn spec_scalar_from_u8(n: u8) -> f64 {
        f64::from(n)
    }
    fn plus(self, other: Self) -> Self {
        P2([self.0[0] + other.0[0], self.0[1] + other.0[1]])
    }
    fn minus(self, other: Self) -> Self {
        P2([self.0[0] - other.0[0], self.0[1] - other.0[1]])
    }
    fn scale(self, factor: f64) -> Self {
        P2([self.0[0] * factor, self.0[1] * factor])
    }
    fn scalar_from_u8(n: u8) -> f64 {
        f64::from(n)
    }
    fn axis(&self, index: usize) -> f64 {
        self.0[index]
    }
    fn squared_length(&self) -> f64 {
        self.0[0] * self.0[0] + self.0[1] * self.0[1]
    }
}

/// Check whether a line segment interpolation p + t*(q-p) at t=0.5
/// yields equal distance to the start (p)/end (q) points (up to machine accuracy).
#[test]
fn line_segment_interpolation() {
    let start = P2([0.0, 1.77]);
    let end = P2([4.3, 3.0]);
    let line = LineSegment::<_, 2> { start, end };
    let mid = line.eval(0.5);
    assert!(mid.minus(line.start).squared_length() - mid.minus(line.end).squared_length() < EPSILON)
}

#[test]
fn line_new_keeps_end_points() {
    let line = LineSegment::<_, 3>::new(P3([1.0, 2.0, 3.0]), P3([4.0, 5.0, 6.0]));
    assert_eq!(line.start, P3([1.0, 2.0, 3.0]));
    assert_eq!(line.end, P3([4.0, 5.0, 6.0]));
}

#[test]
fn line_eval_interpolates() {
    let line = LineSegment::<_, 3>::new(P3([0.0, 2.0, -4.0]), P3([4.0, 6.0, 4.0]));
    assert_eq!(line.eval(0.0), P3([0.0, 2.0, -4.0]));
    assert_eq!(line.eval(1.0), P3([4.0, 6.0, 4.0]));
    assert_eq!(line.eval(0.25), P3([1.0, 3.0, -2.0]));
}

#[test]
fn line_split_halves_meet_at_eval() {
    let line = LineSegment::<_, 3>::new(P3([0.0, 1.0, 0.0]), P3([3.0, 1.0, 0.0]));
    let (left, right) = line.split(0.5);
    assert_eq!(left.start, line.start);
    assert_eq!(left.end, P3([1.5, 1.0, 0.0]));
    assert_eq!(left.end, line.eval(0.5));
    assert_eq!(right.start, left.end);
    assert_eq!(right.end, line.end);
}

#[test]
fn line_derivative_is_end_minus_start() {
    let line = LineSegment::<_, 3>::new(P3([1.0, 5.0, 2.0]), P3([4.0, 1.0, 2.0]));
    assert_eq!(line.derivative(), P3([3.0, -4.0, 0.0]));
}
