//! Verified core pieces of a small stochastic path tracer: the indexed
//! triangle-mesh store, the construction of a mesh from parsed OBJ face data,
//! the integrator's depth-cap control, and the raster layout and PPM encoding.
//!
//! The geometry itself (vectors, intersection tests, scattering) is
//! floating-point work and is carried generically: a mesh stores vertex data
//! of any `Copy` type and only its indexing is reasoned about here.

pub mod mesh;
pub mod obj;
pub mod integrator;
pub mod raster;
