//! A chaos-game fractal renderer.
//!
//! Starting from a random point inside a regular polygon, the engine
//! repeatedly jumps a fixed fraction of the distance from a randomly chosen
//! polygon vertex toward the current point, plotting each resulting point
//! into a raster canvas. All coordinates are fixed-point integers: one pixel
//! is `SCALE` coordinate units, so the geometry is exact and verified.
//!
//! - [`geometry`]: points, interpolation along a segment, and the
//!   trigonometry that places polygon vertices.
//! - [`polygon`]: regular polygons and a verified point-in-polygon test.
//! - [`canvas`]: the raster sink.
//! - [`engine`]: configuration validation, seed acquisition and the
//!   chaos-game iteration itself.

pub mod canvas;
pub mod engine;
pub mod geometry;
pub mod polygon;
