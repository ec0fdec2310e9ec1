//! Verified construction of geodesic sphere meshes.
//!
//! A regular icosahedron is refined face by face into a triangular grid,
//! every grid point is placed on a sphere, smooth vertex normals are blended
//! from face normals, and the result is laid out in flat buffers for a
//! rendering backend.
//!
//! Everything about such a mesh that is exact is computed here under
//! machine-checked contracts: which grid point every vertex stands for,
//! which vertices every triangle joins, which face normals make up a vertex
//! normal and in which order, and where every value lands in the buffers.
//! The arithmetic on coordinates is not part of the crate. A caller supplies
//! it as three operations (place a grid point, take the normal of a
//! triangle, blend face normals), over a scalar type of its choice, and the
//! contracts say which operation produced which entry from which inputs.

pub mod error;
pub mod grid;
pub mod icosahedron;
pub mod laws;
pub mod material;
pub mod mesh;
pub mod normals;
pub mod polyhedron;
pub mod shading;
pub mod sphere;
pub mod triangle;
pub mod vertex;
