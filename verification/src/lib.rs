//! The deciding core of a path tracer: the scene graph, the choice of the
//! nearest hit, the scattering rules, the steps of the integrator, the render
//! sweep with its progress, and the picture that comes out.
//!
//! A path tracer computes with real numbers and decides on what it has
//! computed. This library holds the decisions, each with its contract. Real
//! quantities enter it as bit patterns (see [`scalar`]), which it compares
//! exactly and never computes with; the arithmetic between two decisions is
//! the caller's.

pub mod denoise;
pub mod error;
pub mod image;
pub mod material;
pub mod object;
pub mod raster;
pub mod render;
pub mod scalar;
pub mod scene;
pub mod vector;
