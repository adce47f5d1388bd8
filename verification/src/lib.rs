//! CSS-style hierarchical 3D transform composition over fixed-point arithmetic.
//!
//! The crate folds per-node pivot, accumulated local operations, layout
//! position, an optional injected perspective and the parent's composed
//! matrix into a single world matrix, and solves the two inverse problems
//! needed for hit testing: inverse mapping with known depth, and screen-space
//! ray casting against the node's own plane.
//!
//! All quantities are fixed-point numbers with [`fixed::SCALE`] units per 1.0.

pub mod fixed;
pub mod laws;
pub mod mat4;
pub mod trig;
pub mod transform;

pub use fixed::SCALE;
pub use mat4::Mat4;
pub use transform::Transform;
