//! Mesh assembly: how the triangles of several glTF primitives are numbered.

pub mod gltf_mesh;

pub use gltf_mesh::{append_indexed, append_unindexed, MeshIndexError};
