//! Verified core of a voxelized radiance-field renderer.
//!
//! The library owns the discrete side of the renderer: the voxel grid and its
//! indexing, the gather stencil for trilinear filtering, packed output colors,
//! render-option parsing, configuration validation, the GPU batching plan with
//! its exact buffer layouts, and the render-time bookkeeping timers.
//!
//! Scalar samples (opacities and spherical-harmonic coefficients) are carried
//! as the bit patterns of IEEE-754 single-precision values: the verified code
//! never does numeric work on them, it stores, fetches and repacks them, and
//! the numeric evaluation happens outside this crate.

pub mod benchmark;
pub mod bytes;
pub mod color;
pub mod config;
pub mod field;
pub mod gpu;
pub mod options;
pub mod screen;
