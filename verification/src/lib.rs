//! A minimal real-time rendering core.
//!
//! The library models colored polygon meshes (triangles, rectangles, cubes
//! built from rectangular faces), flattens them into the 32-byte-per-vertex
//! buffer layout the GPU pipeline expects, and drives the surface lifecycle:
//! adapter selection, surface-format choice, per-axis resize, and the
//! per-frame failure policy.
//!
//! Scalar vertex components are carried as the 32-bit patterns of the host's
//! single-precision values. The library never interprets them numerically --
//! it places, copies and serializes them unchanged, so its contracts over
//! them are bit-exact. The numeric work (trigonometry, centroids) and all
//! GPU and window I/O stay with the host.

use vstd::prelude::*;

pub mod engine;
pub mod error;
pub mod events;
pub mod plugins;
pub mod renderer;
pub mod shapes;
pub mod vulkan_instance;

verus! {

/// The number of bytes one vertex occupies in the GPU vertex buffer:
/// four 32-bit position words followed by four 32-bit color words.
pub const VERTEX_STRIDE: usize = 32;

} // verus!
