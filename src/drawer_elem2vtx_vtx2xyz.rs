//! Indexed mesh drawer: one vertex buffer of positions shared by any number
//! of element buffers, each drawn in its own pass with a solid colour.

use vstd::prelude::*;

use crate::gl_call::{
    Attrib, AttribLayout, Capability, DrawerError, GlCall, GlResource, Primitive, Rgb, Uniform,
};
use crate::index::{normalized_indices, to_u32_indices, IndexElem};
use crate::matrix::{mat4_z_flip, z_flip_mat, Mat4};

verus! {

/// Vertex stage, without its version line.
pub const VERTEX_SHADER_SOURCE: &'static str = r#"
uniform mat4 matMV;
uniform mat4 matPrj;
in vec3 position;

void main() {
    gl_Position = matPrj * matMV * vec4(position, 1.0);
}
"#;

/// Fragment stage, without its version line.
pub const FRAGMENT_SHADER_SOURCE: &'static str = r#"
uniform vec3 color;
out vec4 FragColor;

void main() {
    FragColor = vec4(color, 1.0);
}
"#;

/// Bit pattern of `0.0f32`, the channels of black.
pub const BLACK: Rgb = [0, 0, 0];

/// One rendering pass: an index buffer with its primitive mode and colour.
#[derive(Clone, Copy, PartialEq, Eq, Debug)]
pub struct ElementBufferObject {
    pub mode: Primitive,
    /// Number of 32-bit indices in the buffer.
    pub elem_size: usize,
    /// Handle of the index buffer.
    pub ebo: u32,
    pub color: Rgb,
}

/// What a drawer holds, as plain values.
pub ghost struct DrawerModel {
    pub program: Option<u32>,
    pub vertex_array: Option<u32>,
    /// Components per vertex position; 0 until positions are set.
    pub ndim: nat,
    pub num_point: nat,
    /// Passes in drawing order.
    pub ebos: Seq<ElementBufferObject>,
    /// Every GPU object handed to the drawer, in the order it came.
    pub owned: Seq<GlResource>,
}

impl DrawerModel {
    pub open spec fn wf(self) -> bool {
        &&& (self.ndim == 0 || self.ndim == 2 || self.ndim == 3)
        &&& (self.ndim == 0 ==> self.num_point == 0)
    }

    /// Shader compiled and positions bound.
    pub open spec fn is_drawable(self) -> bool {
        self.program is Some && self.vertex_array is Some && self.ndim != 0
    }

    pub open spec fn empty() -> DrawerModel {
        DrawerModel {
            program: None,
            vertex_array: None,
            ndim: 0,
            num_point: 0,
            ebos: Seq::empty(),
            owned: Seq::empty(),
        }
    }
}

/// The calls of one pass.
pub open spec fn pass_calls(e: ElementBufferObject, mv: Mat4, prj: Mat4) -> Seq<GlCall> {
    seq![
        GlCall::Enable(Capability::DepthTest),
        GlCall::Uniform3(Uniform::Color, e.color),
        GlCall::UniformMatrix4(Uniform::ModelView, mv),
        GlCall::UniformMatrix4(Uniform::Projection, prj),
        GlCall::BindElementBuffer(e.ebo),
        GlCall::DrawElements(e.mode, e.elem_size),
    ]
}

/// The calls of all passes, in order.
pub open spec fn passes_calls(ebos: Seq<ElementBufferObject>, mv: Mat4, prj: Mat4) -> Seq<GlCall>
    decreases ebos.len(),
{
    if ebos.len() == 0 {
        Seq::empty()
    } else {
        passes_calls(ebos.drop_last(), mv, prj) + pass_calls(ebos.last(), mv, prj)
    }
}

/// What `draw` issues: nothing unless the drawer is drawable; otherwise the
/// program and vertex array are bound and each pass follows in order.
pub open spec fn draw_spec(m: DrawerModel, mv: Mat4, prj: Mat4) -> Seq<GlCall> {
    if m.is_drawable() {
        seq![GlCall::UseProgram(m.program->0), GlCall::BindVertexArray(m.vertex_array)]
            + passes_calls(m.ebos, mv, prj) + seq![GlCall::BindVertexArray(None)]
    } else {
        Seq::empty()
    }
}

/// What `draw_points` issues: every vertex as a black point, under the
/// z-flipped projection.
pub open spec fn draw_points_spec(m: DrawerModel, mv: Mat4, prj: Mat4) -> Seq<GlCall> {
    if m.is_drawable() {
        seq![
            GlCall::UseProgram(m.program->0),
            GlCall::BindVertexArray(m.vertex_array),
            GlCall::Uniform3(Uniform::Color, BLACK),
            GlCall::UniformMatrix4(Uniform::ModelView, mv),
            GlCall::UniformMatrix4(Uniform::Projection, z_flip_mat(prj)),
            GlCall::DrawArrays(Primitive::Points, m.num_point as usize),
            GlCall::BindVertexArray(None),
        ]
    } else {
        Seq::empty()
    }
}

/// The passes issue one indexed draw each.
pub proof fn lemma_passes_calls_count(ebos: Seq<ElementBufferObject>, mv: Mat4, prj: Mat4)
    ensures
        crate::gl_call::count_indexed_draws(passes_calls(ebos, mv, prj)) == ebos.len(),
    decreases ebos.len(),
{
    if ebos.len() > 0 {
        lemma_passes_calls_count(ebos.drop_last(), mv, prj);
        crate::gl_call::lemma_count_indexed_draws_concat(
            passes_calls(ebos.drop_last(), mv, prj),
            pass_calls(ebos.last(), mv, prj),
        );
        reveal_with_fuel(crate::gl_call::count_indexed_draws, 7);
    }
}

/// A drawable drawer issues one indexed draw per pass.
pub proof fn lemma_draw_count(m: DrawerModel, mv: Mat4, prj: Mat4)
    requires
        m.is_drawable(),
    ensures
        crate::gl_call::count_indexed_draws(draw_spec(m, mv, prj)) == m.ebos.len(),
{
    let head = seq![GlCall::UseProgram(m.program->0), GlCall::BindVertexArray(m.vertex_array)];
    let tail = seq![GlCall::BindVertexArray(None)];
    lemma_passes_calls_count(m.ebos, mv, prj);
    crate::gl_call::lemma_count_indexed_draws_concat(head, passes_calls(m.ebos, mv, prj));
    crate::gl_call::lemma_count_indexed_draws_concat(head + passes_calls(m.ebos, mv, prj), tail);
    reveal_with_fuel(crate::gl_call::count_indexed_draws, 3);
}

pub struct Drawer {
    program: Option<u32>,
    ndim: usize,
    num_point: usize,
    vertex_array: Option<u32>,
    ebos: Vec<ElementBufferObject>,
    owned: Vec<GlResource>,
}

impl View for Drawer {
    type V = DrawerModel;

    closed spec fn view(&self) -> DrawerModel {
        DrawerModel {
            program: self.program,
            vertex_array: self.vertex_array,
            ndim: self.ndim as nat,
            num_point: self.num_point as nat,
            ebos: self.ebos@,
            owned: self.owned@,
        }
    }
}

impl Drawer {
    pub fn new() -> (r: Drawer)
        ensures
            r@ == DrawerModel::empty(),
            r@.wf(),
    {
        Drawer {
            program: None,
            ndim: 0,
            num_point: 0,
            vertex_array: None,
            ebos: Vec::new(),
            owned: Vec::new(),
        }
    }

    /// Handle of the shader program, once compiled.
    pub fn program(&self) -> (r: Option<u32>)
        ensures
            r == self@.program,
    {
        self.program
    }

    /// Handle of the vertex array, once the shader is compiled.
    pub fn vertex_array(&self) -> (r: Option<u32>)
        ensures
            r == self@.vertex_array,
    {
        self.vertex_array
    }

    /// Components per vertex position; 0 until positions are set.
    pub fn ndim(&self) -> (r: usize)
        ensures
            r == self@.ndim,
    {
        self.ndim
    }

    /// Number of vertices.
    pub fn num_point(&self) -> (r: usize)
        ensures
            r == self@.num_point,
    {
        self.num_point
    }

    /// Number of passes.
    pub fn num_element_buffers(&self) -> (r: usize)
        ensures
            r == self@.ebos.len(),
    {
        self.ebos.len()
    }

    /// The pass at position `i`.
    pub fn element_buffer(&self, i: usize) -> (r: ElementBufferObject)
        requires
            i < self@.ebos.len(),
        ensures
            r == self@.ebos[i as int],
    {
        self.ebos[i]
    }

    /// Takes the program linked from `vertex_source` and `fragment_source` and
    /// a new vertex array; the drawer owns both from now on.
    pub fn compile_shader(&mut self, program: u32, vertex_array: u32)
        requires
            old(self)@.wf(),
        ensures
            final(self)@ == (DrawerModel {
                program: Some(program),
                vertex_array: Some(vertex_array),
                owned: old(self)@.owned.push(GlResource::Program(program)).push(
                    GlResource::VertexArray(vertex_array),
                ),
                ..old(self)@
            }),
            final(self)@.wf(),
    {
        self.program = Some(program);
        self.vertex_array = Some(vertex_array);
        self.owned.push(GlResource::Program(program));
        self.owned.push(GlResource::VertexArray(vertex_array));
    }

    /// Appends a pass that draws the primitives of `elem2vtx` in `color`,
    /// from the index buffer `ebo`. Returns the indices as the buffer is to
    /// hold them: each one as a 32-bit unsigned integer.
    pub fn add_elem2vtx<T: IndexElem>(
        &mut self,
        mode: Primitive,
        elem2vtx: &[T],
        color: Rgb,
        ebo: u32,
    ) -> (r: Vec<u32>)
        requires
            old(self)@.wf(),
        ensures
            r@ == normalized_indices(elem2vtx@),
            final(self)@ == (DrawerModel {
                ebos: old(self)@.ebos.push(
                    ElementBufferObject { mode, elem_size: elem2vtx@.len() as usize, ebo, color },
                ),
                owned: old(self)@.owned.push(GlResource::Buffer(ebo)),
                ..old(self)@
            }),
            final(self)@.wf(),
    {
        let elem2vtx0 = to_u32_indices(elem2vtx);
        self.ebos.push(ElementBufferObject { mode, elem_size: elem2vtx0.len(), ebo, color });
        self.owned.push(GlResource::Buffer(ebo));
        elem2vtx0
    }

    /// Takes `num_values` position values, `ndim` per vertex, uploaded to the
    /// vertex buffer `vbo`; returns how the position attribute reads them.
    pub fn set_vtx2xyz(&mut self, num_values: usize, ndim: usize, vbo: u32) -> (r: Result<
        AttribLayout,
        DrawerError,
    >)
        requires
            old(self)@.wf(),
        ensures
            old(self)@.program is None ==> r == Err::<AttribLayout, DrawerError>(
                DrawerError::ShaderNotCompiled,
            ),
            old(self)@.program is Some && ndim != 2 && ndim != 3 ==> r == Err::<
                AttribLayout,
                DrawerError,
            >(DrawerError::InvalidDimension),
            old(self)@.program is Some && (ndim == 2 || ndim == 3) && num_values % ndim != 0 ==> r
                == Err::<AttribLayout, DrawerError>(DrawerError::LengthNotMultiple),
            r is Err ==> final(self)@ == old(self)@,
            old(self)@.program is Some && (ndim == 2 || ndim == 3) && num_values % ndim == 0 ==> {
                &&& r == Ok::<AttribLayout, DrawerError>(
                    AttribLayout {
                        attrib: Attrib::Position,
                        components: ndim,
                        stride_bytes: (4 * ndim) as usize,
                        offset_bytes: 0,
                    },
                )
                &&& final(self)@ == (DrawerModel {
                    ndim: ndim as nat,
                    num_point: (num_values / ndim) as nat,
                    owned: old(self)@.owned.push(GlResource::Buffer(vbo)),
                    ..old(self)@
                })
            },
            final(self)@.wf(),
    {
        if self.program.is_none() {
            return Err(DrawerError::ShaderNotCompiled);
        }
        if ndim != 2 && ndim != 3 {
            return Err(DrawerError::InvalidDimension);
        }
        if num_values % ndim != 0 {
            return Err(DrawerError::LengthNotMultiple);
        }
        self.ndim = ndim;
        self.num_point = num_values / ndim;
        self.owned.push(GlResource::Buffer(vbo));
        Ok(AttribLayout { attrib: Attrib::Position, components: ndim, stride_bytes: 4 * ndim, offset_bytes: 0 })
    }

    /// Draws every pass in the order it was added.
    pub fn draw(&self, mat_modelview: &Mat4, mat_projection: &Mat4) -> (r: Vec<GlCall>)
        ensures
            r@ == draw_spec(self@, *mat_modelview, *mat_projection),
    {
        let mut calls: Vec<GlCall> = Vec::new();
        if self.program.is_none() || self.vertex_array.is_none() || self.ndim == 0 {
            return calls;
        }
        let mv: Mat4 = *mat_modelview;
        let prj: Mat4 = *mat_projection;
        calls.push(GlCall::UseProgram(self.program.unwrap()));
        calls.push(GlCall::BindVertexArray(self.vertex_array));
        let ghost head = calls@;
        let mut i: usize = 0;
        while i < self.ebos.len()
            invariant
                i <= self.ebos@.len(),
                calls@ == head + passes_calls(self.ebos@.take(i as int), mv, prj),
            decreases self.ebos@.len() - i,
        {
            let e = self.ebos[i];
            calls.push(GlCall::Enable(Capability::DepthTest));
            calls.push(GlCall::Uniform3(Uniform::Color, e.color));
            calls.push(GlCall::UniformMatrix4(Uniform::ModelView, mv));
            calls.push(GlCall::UniformMatrix4(Uniform::Projection, prj));
            calls.push(GlCall::BindElementBuffer(e.ebo));
            calls.push(GlCall::DrawElements(e.mode, e.elem_size));
            proof {
                assert(self.ebos@.take(i + 1).drop_last() =~= self.ebos@.take(i as int));
            }
            i += 1;
        }
        calls.push(GlCall::BindVertexArray(None));
        assert(self.ebos@.take(i as int) =~= self.ebos@);
        assert(calls@ =~= draw_spec(self@, mv, prj));
        calls
    }

    /// Draws every vertex as a black point; the projection gets its z row negated.
    pub fn draw_points(&self, mat_modelview: &Mat4, mat_projection: &Mat4) -> (r: Vec<GlCall>)
        ensures
            r@ == draw_points_spec(self@, *mat_modelview, *mat_projection),
    {
        let mut calls: Vec<GlCall> = Vec::new();
        if self.program.is_none() || self.vertex_array.is_none() || self.ndim == 0 {
            return calls;
        }
        let mp1 = mat4_z_flip(mat_projection);
        calls.push(GlCall::UseProgram(self.program.unwrap()));
        calls.push(GlCall::BindVertexArray(self.vertex_array));
        calls.push(GlCall::Uniform3(Uniform::Color, BLACK));
        calls.push(GlCall::UniformMatrix4(Uniform::ModelView, *mat_modelview));
        calls.push(GlCall::UniformMatrix4(Uniform::Projection, mp1));
        calls.push(GlCall::DrawArrays(Primitive::Points, self.num_point));
        calls.push(GlCall::BindVertexArray(None));
        assert(calls@ =~= draw_points_spec(self@, *mat_modelview, *mat_projection));
        calls
    }

    /// Every GPU object the drawer was given, to be deleted by the host:
    /// program, vertex array, and every vertex and index buffer.
    pub fn destroy(&self) -> (r: Vec<GlResource>)
        ensures
            r@ == self@.owned,
    {
        self.owned.clone()
    }

    /// Sets the colour of the pass at position `i_ebo`.
    pub fn set_color(&mut self, i_ebo: usize, rgb: &Rgb)
        requires
            i_ebo < old(self)@.ebos.len(),
            old(self)@.wf(),
        ensures
            final(self)@ == (DrawerModel {
                ebos: old(self)@.ebos.update(
                    i_ebo as int,
                    ElementBufferObject { color: *rgb, ..old(self)@.ebos[i_ebo as int] },
                ),
                ..old(self)@
            }),
            final(self)@.wf(),
    {
        let mut e = self.ebos[i_ebo];
        e.color = *rgb;
        self.ebos.set(i_ebo, e);
    }
}

impl Default for Drawer {
    fn default() -> (r: Drawer)
        ensures
            r@ == DrawerModel::empty(),
    {
        Drawer::new()
    }
}

} // verus!
