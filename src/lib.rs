//! Sampling support for Catmull-Rom splines: the control points of a spline and
//! the choice of the four control points that shape each of its segments.
pub mod spline;
