//! Drawers for meshes on an OpenGL-style API.
//!
//! Each drawer is a small state machine: it records the handles of the GPU
//! objects it was given, the layout of its vertex data and its element
//! buffers, and turns a draw request into the exact sequence of API calls
//! (`GlCall`) that the host executes against its context. Matrices and
//! colours travel as the IEEE-754 bit patterns of their `f32` entries.

pub mod drawer_array_xyrgb;
pub mod drawer_edge2;
pub mod drawer_elem2vtx_vtx2xyz;
pub mod drawer_elem2vtx_vtx2xyz_vtx2uv;
pub mod drawer_mesh;
pub mod drawer_mesh2_at_multiple_loc2s;
pub mod drawer_tri2node2xyz_tri2node2rgb;
pub mod drawer_vtx2xyz;
pub mod gl_call;
pub mod index;
pub mod matrix;
pub mod shader;

pub use gl_call::{
    Attrib, AttribLayout, Capability, DrawerError, GlCall, GlResource, Primitive, Rgb, Uniform,
};
pub use index::{to_u32_indices, IndexElem};
pub use matrix::{identity_mat4, mat4_z_flip, Mat4};
