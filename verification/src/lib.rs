//! Core library for a world-map renderer: geographic coordinates and
//! projections, topology normalization, marker modelling, a fixed-capacity
//! GPU instance buffer, and the decision logic of the GPU layer.
//!
//! All numeric quantities are carried as scaled integers so that every
//! computation can be verified exactly: angles in microdegrees (one millionth
//! of a degree), screen positions in subpixels (2^-30 of a pixel), intensities
//! in micro-units (one millionth of full intensity), and color channels as
//! 8-bit values. The host converts at the boundary.

/// Error types shared by the library.
pub mod error;
/// Marker identifiers, markers, and colors.
pub mod marker;
/// Fixed-capacity GPU instance buffer and instance builder.
pub mod marker_buffer;
/// Shader-program lifecycle decision logic.
pub mod program;
/// Geographic coordinates and screen projections.
pub mod projection;
/// Basemap vertex building.
pub mod renderer;
/// Visual theme configuration.
pub mod theme;
/// World topology data structures and normalization.
pub mod topology;

pub use error::CoreError;
