//! Marshaling layer for boolean set operations and offsetting on 2D vector
//! geometry.
//!
//! Shapes are modelled in the clipping engine's fixed-point integer domain:
//! closed polygons with holes, collections of polygons, and open polylines.
//! The crate converts nested-ring shapes into the flat descriptor buffers the
//! engine consumes, derives the engine's offset parameters, and decodes the
//! engine's flat output back into nested shapes.  The engine itself is an
//! external component; a host wraps the single foreign call and hands its
//! result back for decoding.

pub mod decode;
pub mod descriptors;
pub mod ops;
pub mod params;
pub mod shapes;
