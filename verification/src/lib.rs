//! Turns a decoded polygonal model into flat, renderer-ready buffers.
//!
//! The model holds parallel attribute arrays (positions, texture
//! coordinates, normals) and a list of shapes whose triangles reference
//! those arrays by index. Extraction emits one vertex per triangle
//! corner into a caller-owned vertex buffer, appends the matching
//! indices to a shared index buffer, and classifies which optional
//! attributes were uniformly present.

pub mod geometry;
pub mod model;
pub mod vertex;
