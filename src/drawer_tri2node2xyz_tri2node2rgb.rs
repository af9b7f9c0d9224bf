//! Per-face flat drawer: triangles whose corners are stored one after the
//! other (no indexing), each corner with its own position and colour.

use vstd::prelude::*;

use crate::gl_call::{
    count_array_draws, count_indexed_draws, Attrib, AttribLayout, DrawerError, GlCall, GlResource,
    Primitive, Uniform,
};
use crate::matrix::Mat4;

verus! {

/// Vertex stage, without its version line.
pub const VERTEX_SHADER_SOURCE: &'static str = r#"
uniform mat4 Mvp;
layout (location=0) in vec3 in_position;
layout (location=1) in vec3 in_color;
out vec3 color;
void main() {
    color = in_color;
    gl_Position = Mvp * vec4(in_position, 1.0);
}
"#;

/// Fragment stage, without its version line.
pub const FRAGMENT_SHADER_SOURCE: &'static str = r#"
in vec3 color;
out vec4 f_color;
void main() {
    f_color = vec4(color, 1.0);
}
"#;

/// Values per triangle: three corners of three components.
pub const VALUES_PER_TRI: usize = 9;

/// What a drawer holds, as plain values.
pub ghost struct DrawerModel {
    pub program: Option<u32>,
    pub vertex_array: Option<u32>,
    /// Number of triangles.
    pub num_elem: nat,
    /// Whether corner positions were uploaded.
    pub has_positions: bool,
    /// Every GPU object handed to the drawer, in the order it came.
    pub owned: Seq<GlResource>,
}

impl DrawerModel {
    pub open spec fn wf(self) -> bool {
        self.num_elem * 9 <= usize::MAX
    }

    pub open spec fn is_drawable(self) -> bool {
        self.program is Some && self.vertex_array is Some && self.has_positions
    }

    pub open spec fn empty() -> DrawerModel {
        DrawerModel {
            program: None,
            vertex_array: None,
            num_elem: 0,
            has_positions: false,
            owned: Seq::empty(),
        }
    }
}

/// How a three-component corner attribute is read.
pub open spec fn corner_layout(attrib: Attrib) -> AttribLayout {
    AttribLayout { attrib, components: 3, stride_bytes: 12, offset_bytes: 0 }
}

/// What `draw` issues: one non-indexed draw of every corner of every triangle.
pub open spec fn draw_spec(m: DrawerModel, mvp: Mat4) -> Seq<GlCall> {
    if m.is_drawable() {
        seq![
            GlCall::BindVertexArray(m.vertex_array),
            GlCall::UseProgram(m.program->0),
            GlCall::UniformMatrix4(Uniform::Mvp, mvp),
            GlCall::DrawArrays(Primitive::Triangles, (3 * m.num_elem) as usize),
            GlCall::BindVertexArray(None),
        ]
    } else {
        Seq::empty()
    }
}

/// A drawable flat drawer issues a single draw call, non-indexed, of three
/// vertices per triangle.
pub proof fn lemma_draw_single_call(m: DrawerModel, mvp: Mat4)
    requires
        m.is_drawable(),
    ensures
        count_array_draws(draw_spec(m, mvp)) == 1,
        count_indexed_draws(draw_spec(m, mvp)) == 0,
        draw_spec(m, mvp)[3] == GlCall::DrawArrays(Primitive::Triangles, (3 * m.num_elem) as usize),
{
    reveal_with_fuel(count_array_draws, 6);
    reveal_with_fuel(count_indexed_draws, 6);
}

pub struct Drawer {
    vertex_array: Option<u32>,
    pub program: Option<u32>,
    num_elem: usize,
    has_positions: bool,
    owned: Vec<GlResource>,
}

impl View for Drawer {
    type V = DrawerModel;

    closed spec fn view(&self) -> DrawerModel {
        DrawerModel {
            program: self.program,
            vertex_array: self.vertex_array,
            num_elem: self.num_elem as nat,
            has_positions: self.has_positions,
            owned: self.owned@,
        }
    }
}

impl Drawer {
    pub fn new() -> (r: Drawer)
        ensures
            r@ == DrawerModel::empty(),
            r@.wf(),
    {
        Drawer {
            program: None,
            vertex_array: None,
            num_elem: 0,
            has_positions: false,
            owned: Vec::new(),
        }
    }

    /// Handle of the vertex array, once the shader is compiled.
    pub fn vertex_array(&self) -> (r: Option<u32>)
        ensures
            r == self@.vertex_array,
    {
        self.vertex_array
    }

    /// Number of triangles.
    pub fn num_elem(&self) -> (r: usize)
        ensures
            r == self@.num_elem,
    {
        self.num_elem
    }

    /// Takes the program linked from `VERTEX_SHADER_SOURCE` and
    /// `FRAGMENT_SHADER_SOURCE` and a new vertex array; the drawer owns both
    /// from now on.
    pub fn compile_shader(&mut self, program: u32, vertex_array: u32)
        requires
            old(self)@.wf(),
        ensures
            final(self)@ == (DrawerModel {
                program: Some(program),
                vertex_array: Some(vertex_array),
                owned: old(self)@.owned.push(GlResource::Program(program)).push(
                    GlResource::VertexArray(vertex_array),
                ),
                ..old(self)@
            }),
            final(self)@.wf(),
    {
        self.program = Some(program);
        self.vertex_array = Some(vertex_array);
        self.owned.push(GlResource::Program(program));
        self.owned.push(GlResource::VertexArray(vertex_array));
    }

    /// Takes `num_values` corner positions, nine per triangle, uploaded to the
    /// vertex buffer `vbo`; the triangle count follows from them.
    pub fn update_tri2node2xyz(&mut self, num_values: usize, vbo: u32) -> (r: Result<
        AttribLayout,
        DrawerError,
    >)
        requires
            old(self)@.wf(),
        ensures
            old(self)@.program is None ==> r == Err::<AttribLayout, DrawerError>(
                DrawerError::ShaderNotCompiled,
            ),
            old(self)@.program is Some && num_values % 9 != 0 ==> r == Err::<
                AttribLayout,
                DrawerError,
            >(DrawerError::LengthNotMultiple),
            r is Err ==> final(self)@ == old(self)@,
            old(self)@.program is Some && num_values % 9 == 0 ==> {
                &&& r == Ok::<AttribLayout, DrawerError>(corner_layout(Attrib::Position))
                &&& final(self)@ == (DrawerModel {
                    num_elem: (num_values / 9) as nat,
                    has_positions: true,
                    owned: old(self)@.owned.push(GlResource::Buffer(vbo)),
                    ..old(self)@
                })
            },
            final(self)@.wf(),
    {
        if self.program.is_none() {
            return Err(DrawerError::ShaderNotCompiled);
        }
        if num_values % VALUES_PER_TRI != 0 {
            return Err(DrawerError::LengthNotMultiple);
        }
        self.num_elem = num_values / VALUES_PER_TRI;
        self.has_positions = true;
        self.owned.push(GlResource::Buffer(vbo));
        Ok(AttribLayout { attrib: Attrib::Position, components: 3, stride_bytes: 12, offset_bytes: 0 })
    }

    /// Takes `num_values` corner colours, nine per triangle, uploaded to the
    /// vertex buffer `vbo`; they must match the triangles of the positions.
    pub fn update_tri2node2rgb(&mut self, num_values: usize, vbo: u32) -> (r: Result<
        AttribLayout,
        DrawerError,
    >)
        requires
            old(self)@.wf(),
        ensures
            old(self)@.program is None ==> r == Err::<AttribLayout, DrawerError>(
                DrawerError::ShaderNotCompiled,
            ),
            old(self)@.program is Some && num_values != 9 * old(self)@.num_elem ==> r == Err::<
                AttribLayout,
                DrawerError,
            >(DrawerError::LengthMismatch),
            r is Err ==> final(self)@ == old(self)@,
            old(self)@.program is Some && num_values == 9 * old(self)@.num_elem ==> {
                &&& r == Ok::<AttribLayout, DrawerError>(corner_layout(Attrib::Color))
                &&& final(self)@ == (DrawerModel {
                    owned: old(self)@.owned.push(GlResource::Buffer(vbo)),
                    ..old(self)@
                })
            },
            final(self)@.wf(),
    {
        if self.program.is_none() {
            return Err(DrawerError::ShaderNotCompiled);
        }
        if num_values != VALUES_PER_TRI * self.num_elem {
            return Err(DrawerError::LengthMismatch);
        }
        self.owned.push(GlResource::Buffer(vbo));
        Ok(AttribLayout { attrib: Attrib::Color, components: 3, stride_bytes: 12, offset_bytes: 0 })
    }

    /// Draws every triangle with `mvp`, the product of projection and
    /// model-view, in one non-indexed call.
    pub fn draw(&self, mvp: &Mat4) -> (r: Vec<GlCall>)
        requires
            self@.wf(),
        ensures
            r@ == draw_spec(self@, *mvp),
    {
        let mut calls: Vec<GlCall> = Vec::new();
        if self.program.is_none() || self.vertex_array.is_none() || !self.has_positions {
            return calls;
        }
        calls.push(GlCall::BindVertexArray(self.vertex_array));
        calls.push(GlCall::UseProgram(self.program.unwrap()));
        calls.push(GlCall::UniformMatrix4(Uniform::Mvp, *mvp));
        calls.push(GlCall::DrawArrays(Primitive::Triangles, 3 * self.num_elem));
        calls.push(GlCall::BindVertexArray(None));
        assert(calls@ =~= draw_spec(self@, *mvp));
        calls
    }

    /// Every GPU object the drawer was given, to be deleted by the host.
    pub fn destroy(&self) -> (r: Vec<GlResource>)
        ensures
            r@ == self@.owned,
    {
        self.owned.clone()
    }
}

impl Default for Drawer {
    fn default() -> (r: Drawer)
        ensures
            r@ == DrawerModel::empty(),
    {
        Drawer::new()
    }
}

} // verus!
