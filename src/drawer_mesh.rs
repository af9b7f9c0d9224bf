//! Indexed mesh drawer that clears the depth buffer and turns depth testing
//! on once per frame, before its passes.

use vstd::prelude::*;

use crate::drawer_elem2vtx_vtx2xyz as indexed;
use crate::drawer_elem2vtx_vtx2xyz::{DrawerModel, ElementBufferObject, BLACK};
use crate::gl_call::{AttribLayout, Capability, DrawerError, GlCall, GlResource, Primitive, Rgb, Uniform};
use crate::index::{normalized_indices, IndexElem};
use crate::matrix::{mat4_z_flip, z_flip_mat, Mat4};

verus! {

/// The calls of one pass.
pub open spec fn pass_calls(e: ElementBufferObject, mv: Mat4, prj: Mat4) -> Seq<GlCall> {
    seq![
        GlCall::Uniform3(Uniform::Color, e.color),
        GlCall::UniformMatrix4(Uniform::ModelView, mv),
        GlCall::UniformMatrix4(Uniform::Projection, prj),
        GlCall::BindElementBuffer(e.ebo),
        GlCall::DrawElements(e.mode, e.elem_size),
    ]
}

/// The calls of all passes, in order.
pub open spec fn passes_calls(ebos: Seq<ElementBufferObject>, mv: Mat4, prj: Mat4) -> Seq<GlCall>
    decreases ebos.len(),
{
    if ebos.len() == 0 {
        Seq::empty()
    } else {
        passes_calls(ebos.drop_last(), mv, prj) + pass_calls(ebos.last(), mv, prj)
    }
}

/// What `draw` issues: nothing unless the drawer is drawable; otherwise a
/// depth clear, depth testing, the program and vertex array, then each pass.
pub open spec fn draw_spec(m: DrawerModel, mv: Mat4, prj: Mat4) -> Seq<GlCall> {
    if m.is_drawable() {
        seq![
            GlCall::ClearColorWhite,
            GlCall::ClearDepth,
            GlCall::Enable(Capability::DepthTest),
            GlCall::UseProgram(m.program->0),
            GlCall::BindVertexArray(m.vertex_array),
        ] + passes_calls(m.ebos, mv, prj)
    } else {
        Seq::empty()
    }
}

/// What `draw_points` issues: every vertex as a black point, under the
/// z-flipped projection.
pub open spec fn draw_points_spec(m: DrawerModel, mv: Mat4, prj: Mat4) -> Seq<GlCall> {
    if m.is_drawable() {
        seq![
            GlCall::UseProgram(m.program->0),
            GlCall::BindVertexArray(m.vertex_array),
            GlCall::Uniform3(Uniform::Color, BLACK),
            GlCall::UniformMatrix4(Uniform::ModelView, mv),
            GlCall::UniformMatrix4(Uniform::Projection, z_flip_mat(prj)),
            GlCall::DrawArrays(Primitive::Points, m.num_point as usize),
        ]
    } else {
        Seq::empty()
    }
}

pub struct Drawer {
    mesh: indexed::Drawer,
}

impl View for Drawer {
    type V = DrawerModel;

    closed spec fn view(&self) -> DrawerModel {
        self.mesh@
    }
}

impl Drawer {
    pub fn new() -> (r: Drawer)
        ensures
            r@ == DrawerModel::empty(),
            r@.wf(),
    {
        Drawer { mesh: indexed::Drawer::new() }
    }

    /// Handle of the shader program, once compiled.
    pub fn program(&self) -> (r: Option<u32>)
        ensures
            r == self@.program,
    {
        self.mesh.program()
    }

    /// Handle of the vertex array, once the shader is compiled.
    pub fn vertex_array(&self) -> (r: Option<u32>)
        ensures
            r == self@.vertex_array,
    {
        self.mesh.vertex_array()
    }

    /// Components per vertex position; 0 until positions are set.
    pub fn ndim(&self) -> (r: usize)
        ensures
            r == self@.ndim,
    {
        self.mesh.ndim()
    }

    /// Number of vertices.
    pub fn num_point(&self) -> (r: usize)
        ensures
            r == self@.num_point,
    {
        self.mesh.num_point()
    }

    /// Number of passes.
    pub fn num_element_buffers(&self) -> (r: usize)
        ensures
            r == self@.ebos.len(),
    {
        self.mesh.num_element_buffers()
    }

    /// Takes the program linked from the indexed drawer's shader sources and
    /// a new vertex array, which the host binds; the drawer owns both from now on.
    pub fn compile_shader(&mut self, program: u32, vertex_array: u32)
        requires
            old(self)@.wf(),
        ensures
            final(self)@ == (DrawerModel {
                program: Some(program),
                vertex_array: Some(vertex_array),
                owned: old(self)@.owned.push(GlResource::Program(program)).push(
                    GlResource::VertexArray(vertex_array),
                ),
                ..old(self)@
            }),
            final(self)@.wf(),
    {
        self.mesh.compile_shader(program, vertex_array);
    }

    /// Appends a pass that draws the primitives of `elem2vtx` in `color`,
    /// from the index buffer `ebo`. Returns the indices as the buffer is to
    /// hold them: each one as a 32-bit unsigned integer.
    pub fn add_element<T: IndexElem>(
        &mut self,
        mode: Primitive,
        elem2vtx: &Vec<T>,
        color: Rgb,
        ebo: u32,
    ) -> (r: Vec<u32>)
        requires
            old(self)@.wf(),
        ensures
            r@ == normalized_indices(elem2vtx@),
            final(self)@ == (DrawerModel {
                ebos: old(self)@.ebos.push(
                    ElementBufferObject { mode, elem_size: elem2vtx@.len() as usize, ebo, color },
                ),
                owned: old(self)@.owned.push(GlResource::Buffer(ebo)),
                ..old(self)@
            }),
            final(self)@.wf(),
    {
        self.mesh.add_elem2vtx(mode, elem2vtx.as_slice(), color, ebo)
    }

    /// Takes `num_values` position values, `ndim` per vertex, uploaded to the
    /// vertex buffer `vbo`; returns how the position attribute reads them.
    pub fn update_vertex(&mut self, num_values: usize, ndim: usize, vbo: u32) -> (r: Result<
        AttribLayout,
        DrawerError,
    >)
        requires
            old(self)@.wf(),
        ensures
            old(self)@.program is None ==> r == Err::<AttribLayout, DrawerError>(
                DrawerError::ShaderNotCompiled,
            ),
            old(self)@.program is Some && ndim != 2 && ndim != 3 ==> r == Err::<
                AttribLayout,
                DrawerError,
            >(DrawerError::InvalidDimension),
            old(self)@.program is Some && (ndim == 2 || ndim == 3) && num_values % ndim != 0 ==> r
                == Err::<AttribLayout, DrawerError>(DrawerError::LengthNotMultiple),
            r is Err ==> final(self)@ == old(self)@,
            old(self)@.program is Some && (ndim == 2 || ndim == 3) && num_values % ndim == 0 ==> {
                &&& r == Ok::<AttribLayout, DrawerError>(
                    AttribLayout {
                        attrib: crate::gl_call::Attrib::Position,
                        components: ndim,
                        stride_bytes: (4 * ndim) as usize,
                        offset_bytes: 0,
                    },
                )
                &&& final(self)@ == (DrawerModel {
                    ndim: ndim as nat,
                    num_point: (num_values / ndim) as nat,
                    owned: old(self)@.owned.push(GlResource::Buffer(vbo)),
                    ..old(self)@
                })
            },
            final(self)@.wf(),
    {
        self.mesh.set_vtx2xyz(num_values, ndim, vbo)
    }

    /// Clears the depth buffer, turns depth testing on and draws every pass
    /// in the order it was added.
    pub fn draw(&self, mat_modelview: &Mat4, mat_projection: &Mat4) -> (r: Vec<GlCall>)
        ensures
            r@ == draw_spec(self@, *mat_modelview, *mat_projection),
    {
        let mut calls: Vec<GlCall> = Vec::new();
        let program = self.mesh.program();
        let vertex_array = self.mesh.vertex_array();
        if program.is_none() || vertex_array.is_none() || self.mesh.ndim() == 0 {
            return calls;
        }
        let mv: Mat4 = *mat_modelview;
        let prj: Mat4 = *mat_projection;
        calls.push(GlCall::ClearColorWhite);
        calls.push(GlCall::ClearDepth);
        calls.push(GlCall::Enable(Capability::DepthTest));
        calls.push(GlCall::UseProgram(program.unwrap()));
        calls.push(GlCall::BindVertexArray(vertex_array));
        let ghost head = calls@;
        let n = self.mesh.num_element_buffers();
        let mut i: usize = 0;
        while i < n
            invariant
                i <= n,
                n == self@.ebos.len(),
                calls@ == head + passes_calls(self@.ebos.take(i as int), mv, prj),
            decreases n - i,
        {
            let e = self.mesh.element_buffer(i);
            calls.push(GlCall::Uniform3(Uniform::Color, e.color));
            calls.push(GlCall::UniformMatrix4(Uniform::ModelView, mv));
            calls.push(GlCall::UniformMatrix4(Uniform::Projection, prj));
            calls.push(GlCall::BindElementBuffer(e.ebo));
            calls.push(GlCall::DrawElements(e.mode, e.elem_size));
            proof {
                assert(self@.ebos.take(i + 1).drop_last() =~= self@.ebos.take(i as int));
            }
            i += 1;
        }
        assert(self@.ebos.take(i as int) =~= self@.ebos);
        assert(calls@ =~= draw_spec(self@, mv, prj));
        calls
    }

    /// Draws every vertex as a black point; the projection gets its z row negated.
    pub fn draw_points(&self, mat_modelview: &Mat4, mat_projection: &Mat4) -> (r: Vec<GlCall>)
        ensures
            r@ == draw_points_spec(self@, *mat_modelview, *mat_projection),
    {
        let mut calls: Vec<GlCall> = Vec::new();
        let program = self.mesh.program();
        let vertex_array = self.mesh.vertex_array();
        if program.is_none() || vertex_array.is_none() || self.mesh.ndim() == 0 {
            return calls;
        }
        let mp1 = mat4_z_flip(mat_projection);
        calls.push(GlCall::UseProgram(program.unwrap()));
        calls.push(GlCall::BindVertexArray(vertex_array));
        calls.push(GlCall::Uniform3(Uniform::Color, BLACK));
        calls.push(GlCall::UniformMatrix4(Uniform::ModelView, *mat_modelview));
        calls.push(GlCall::UniformMatrix4(Uniform::Projection, mp1));
        calls.push(GlCall::DrawArrays(Primitive::Points, self.mesh.num_point()));
        assert(calls@ =~= draw_points_spec(self@, *mat_modelview, *mat_projection));
        calls
    }

    /// Every GPU object the drawer was given, to be deleted by the host:
    /// program, vertex array, and every vertex and index buffer.
    pub fn destroy(&self) -> (r: Vec<GlResource>)
        ensures
            r@ == self@.owned,
    {
        self.mesh.destroy()
    }
}

impl Default for Drawer {
    fn default() -> (r: Drawer)
        ensures
            r@ == DrawerModel::empty(),
    {
        Drawer::new()
    }
}

} // verus!
