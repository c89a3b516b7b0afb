//! Core of a renderer that displays real-time 3-dimensional cross-sections
//! ("slices") of a static 4-dimensional scene.
//!
//! All geometry in this crate is carried in exact fixed-point integers: a
//! coordinate, rotation entry or field-of-view tangent is an `i128` holding
//! the real quantity times [`linalg::UNIT`]. Every operation is exact integer
//! arithmetic, so every contract states the result exactly. The host
//! application converts to and from its floating-point world at the edges.
//!
//! Modules, leaves first:
//! - [`linalg`]: 4-vectors, affine rows, 3x3 rotation blocks.
//! - [`camera`]: the four-dimensional camera and its projection algebra.
//! - [`region`]: convex half-space regions and the analytic segment
//!   occlusion test.
//! - [`scene`]: the composable scene graph of renderable primitives.
//! - [`world`]: the reference world built on it.
//! - [`shader`]: the region compiler, which specializes the occlusion test
//!   into fragment-stage source code.
//! - [`pipeline`]: the per-fragment visibility rule of the accumulate pass,
//!   the per-frame update state machine and the head-mounted-display status
//!   cell.

pub mod camera;
pub mod linalg;
pub mod pipeline;
pub mod region;
pub mod scene;
pub mod shader;
pub mod world;
