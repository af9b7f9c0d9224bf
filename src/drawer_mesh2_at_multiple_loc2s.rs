//! A 2D triangle mesh drawn through the indexed drawer, placed by the
//! model-view-projection matrix of each draw.

use vstd::prelude::*;

use crate::drawer_elem2vtx_vtx2xyz as indexed;
use crate::drawer_elem2vtx_vtx2xyz::{DrawerModel, ElementBufferObject, BLACK};
use crate::gl_call::{Attrib, AttribLayout, DrawerError, GlCall, GlResource, Primitive};
use crate::index::normalized_indices;
use crate::matrix::{identity_mat, identity_mat4, Mat4};

verus! {

/// How the position attribute reads 2D positions.
pub open spec fn layout_2d() -> AttribLayout {
    AttribLayout { attrib: Attrib::Position, components: 2, stride_bytes: 8, offset_bytes: 0 }
}

pub struct Drawer {
    pub drawer_quad: indexed::Drawer,
}

impl Drawer {
    pub fn new() -> (r: Drawer)
        ensures
            r.drawer_quad@ == DrawerModel::empty(),
    {
        Drawer { drawer_quad: indexed::Drawer::new() }
    }

    /// Takes the program linked from the indexed drawer's shader sources and
    /// a new vertex array; the drawer owns both from now on.
    pub fn compile_shader(&mut self, program: u32, vertex_array: u32)
        requires
            old(self).drawer_quad@.wf(),
        ensures
            final(self).drawer_quad@ == (DrawerModel {
                program: Some(program),
                vertex_array: Some(vertex_array),
                owned: old(self).drawer_quad@.owned.push(GlResource::Program(program)).push(
                    GlResource::VertexArray(vertex_array),
                ),
                ..old(self).drawer_quad@
            }),
            final(self).drawer_quad@.wf(),
    {
        self.drawer_quad.compile_shader(program, vertex_array);
    }

    /// Adds the black triangles `tri2vtx` over `num_values` 2D position
    /// values: the indices go to the index buffer `ebo`, the positions to the
    /// vertex buffer `vbo`. Returns the indices as 32-bit unsigned integers and
    /// how the position attribute reads the positions.
    pub fn add_mesh2(&mut self, tri2vtx: &[usize], num_values: usize, ebo: u32, vbo: u32) -> (r:
        Result<(Vec<u32>, AttribLayout), DrawerError>)
        requires
            old(self).drawer_quad@.wf(),
        ensures
            old(self).drawer_quad@.program is None ==> r matches Err(
                DrawerError::ShaderNotCompiled,
            ),
            old(self).drawer_quad@.program is Some && num_values % 2 != 0 ==> r matches Err(
                DrawerError::LengthNotMultiple,
            ),
            r is Err ==> final(self).drawer_quad@ == old(self).drawer_quad@,
            old(self).drawer_quad@.program is Some && num_values % 2 == 0 ==> {
                &&& r matches Ok((indices, layout)) && indices@ == normalized_indices(tri2vtx@)
                    && layout == layout_2d()
                &&& final(self).drawer_quad@ == (DrawerModel {
                    ndim: 2,
                    num_point: (num_values / 2) as nat,
                    ebos: old(self).drawer_quad@.ebos.push(
                        ElementBufferObject {
                            mode: Primitive::Triangles,
                            elem_size: tri2vtx@.len() as usize,
                            ebo,
                            color: BLACK,
                        },
                    ),
                    owned: old(self).drawer_quad@.owned.push(GlResource::Buffer(ebo)).push(
                        GlResource::Buffer(vbo),
                    ),
                    ..old(self).drawer_quad@
                })
            },
            final(self).drawer_quad@.wf(),
    {
        if self.drawer_quad.program().is_none() {
            return Err(DrawerError::ShaderNotCompiled);
        }
        if num_values % 2 != 0 {
            return Err(DrawerError::LengthNotMultiple);
        }
        let indices = self.drawer_quad.add_elem2vtx(Primitive::Triangles, tri2vtx, BLACK, ebo);
        let _ = self.drawer_quad.set_vtx2xyz(num_values, 2, vbo);
        Ok((indices, AttribLayout { attrib: Attrib::Position, components: 2, stride_bytes: 8, offset_bytes: 0 }))
    }

    /// Every GPU object of the mesh, to be deleted by the host.
    pub fn destroy(&self) -> (r: Vec<GlResource>)
        ensures
            r@ == self.drawer_quad@.owned,
    {
        self.drawer_quad.destroy()
    }

    /// Draws the mesh with the identity as model-view and `mvp` as projection.
    pub fn draw(&self, mvp: &Mat4) -> (r: Vec<GlCall>)
        ensures
            r@ == indexed::draw_spec(self.drawer_quad@, identity_mat(), *mvp),
    {
        let m = identity_mat4();
        self.drawer_quad.draw(&m, mvp)
    }
}

impl Default for Drawer {
    fn default() -> (r: Drawer)
        ensures
            r.drawer_quad@ == DrawerModel::empty(),
    {
        Drawer::new()
    }
}

} // verus!
