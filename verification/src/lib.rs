//! Bezier curves and line segments over any point type that implements [`Point`].
//!
//! The curves are plain containers of control points.  Everything that only
//! rearranges control points or combines them through the point operations
//! (de Casteljau evaluation, splitting, derivative curves, baselines) is
//! verified here against the operations that [`Point`] promises.

pub mod point;
pub mod line;

pub use point::Point;
pub use line::LineSegment;
pub mod quadratic_bezier;
pub mod cubic_bezier;

pub use quadratic_bezier::QuadraticBezier;
pub use cubic_bezier::CubicBezier;
