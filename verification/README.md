# stroke

Bezier curves (cubic, quadratic) and line segments over any point type that
implements the `Point` trait.

- `src/` is the verified library: the curve types, de Casteljau evaluation and
  splitting, derivative curves, baselines and control points, each with a
  contract stated over the point operations of `Point`.
- `app/` holds what computes with `f32`/`f64`: the `PointN` point type and the
  curve operations that need floating point arithmetic (polynomial
  evaluation, arc length, curvature, closest point, bounding boxes, roots).
- `tests/` exercises the library with concrete point types.
