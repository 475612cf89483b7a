//! Lithophane generation: turning a height field into a closed triangle mesh
//! and writing that mesh as a binary STL byte stream.
//!
//! Coordinates are IEEE-754 single-precision values. The library never does
//! floating-point arithmetic itself: it carries each coordinate as its bit
//! pattern, decides which grid corners form which triangles (and in which
//! winding order), and lays the bytes out. The arithmetic on the values
//! (lightness, heights, cylinder placement, normals) is done by the caller.

/// Geometry primitives: vertices, meshes and their binary encoding
pub mod geo;
/// Mesh generators: the triangulation of a height field into a closed solid
pub mod gen;
/// Pixel buffers and the checks on raw pixel data
pub mod img;
/// The calls this library makes into the `image` crate
pub mod raster;
