//! Drawer of one triangle whose vertices interleave a 2D position and an
//! RGB colour, five values per vertex, with no transform.

use vstd::prelude::*;

use crate::gl_call::{Attrib, AttribLayout, DrawerError, GlCall, GlResource, Primitive};

verus! {

/// Vertex stage, without its version line.
pub const VERTEX_SHADER_SOURCE: &'static str = r#"
in vec2 xyzIn;
in vec3 rgbIn;
out vec3 v_color;
void main() {
    v_color = rgbIn;
    gl_Position = vec4(xyzIn, 0.0, 1.0);
}
"#;

/// Fragment stage, without its version line.
pub const FRAGMENT_SHADER_SOURCE: &'static str = r#"
precision mediump float;
in vec3 v_color;
out vec4 out_color;
void main() {
    out_color = vec4(v_color, 1.0);
}
"#;

/// Values per vertex: x, y, r, g, b.
pub const VALUES_PER_VTX: usize = 5;

/// What a drawer holds, as plain values.
pub ghost struct DrawerModel {
    pub program: Option<u32>,
    pub vertex_array: Option<u32>,
    /// Every GPU object handed to the drawer, in the order it came.
    pub owned: Seq<GlResource>,
}

impl DrawerModel {
    pub open spec fn empty() -> DrawerModel {
        DrawerModel { program: None, vertex_array: None, owned: Seq::empty() }
    }
}

/// How the position attribute reads the interleaved vertices.
pub open spec fn xy_layout() -> AttribLayout {
    AttribLayout { attrib: Attrib::Position, components: 2, stride_bytes: 20, offset_bytes: 0 }
}

/// How the colour attribute reads the interleaved vertices.
pub open spec fn rgb_layout() -> AttribLayout {
    AttribLayout { attrib: Attrib::Color, components: 3, stride_bytes: 20, offset_bytes: 8 }
}

/// What `paint` issues: the first three vertices as a triangle.
pub open spec fn paint_spec(m: DrawerModel) -> Seq<GlCall> {
    if m.program is Some && m.vertex_array is Some {
        seq![
            GlCall::UseProgram(m.program->0),
            GlCall::BindVertexArray(m.vertex_array),
            GlCall::DrawArrays(Primitive::Triangles, 3),
        ]
    } else {
        Seq::empty()
    }
}

pub struct Drawer {
    pub program: Option<u32>,
    pub vertex_array: Option<u32>,
    owned: Vec<GlResource>,
}

impl View for Drawer {
    type V = DrawerModel;

    closed spec fn view(&self) -> DrawerModel {
        DrawerModel {
            program: self.program,
            vertex_array: self.vertex_array,
            owned: self.owned@,
        }
    }
}

impl Drawer {
    /// Takes the program linked from `VERTEX_SHADER_SOURCE` and
    /// `FRAGMENT_SHADER_SOURCE`; the drawer owns it from now on.
    pub fn compile_shader(&mut self, program: u32)
        ensures
            final(self)@ == (DrawerModel {
                program: Some(program),
                owned: old(self)@.owned.push(GlResource::Program(program)),
                ..old(self)@
            }),
    {
        self.program = Some(program);
        self.owned.push(GlResource::Program(program));
    }

    /// Takes `num_values` interleaved values, five per vertex, uploaded to
    /// the vertex buffer `vbo` and read through the new vertex array
    /// `vertex_array`; returns how the position and colour attributes read them.
    pub fn new(&mut self, num_values: usize, vbo: u32, vertex_array: u32) -> (r: Result<
        (AttribLayout, AttribLayout),
        DrawerError,
    >)
        ensures
            old(self)@.program is None ==> r == Err::<(AttribLayout, AttribLayout), DrawerError>(
                DrawerError::ShaderNotCompiled,
            ),
            old(self)@.program is Some && num_values % 5 != 0 ==> r == Err::<
                (AttribLayout, AttribLayout),
                DrawerError,
            >(DrawerError::LengthNotMultiple),
            r is Err ==> final(self)@ == old(self)@,
            old(self)@.program is Some && num_values % 5 == 0 ==> {
                &&& r == Ok::<(AttribLayout, AttribLayout), DrawerError>(
                    (xy_layout(), rgb_layout()),
                )
                &&& final(self)@ == (DrawerModel {
                    vertex_array: Some(vertex_array),
                    owned: old(self)@.owned.push(GlResource::Buffer(vbo)).push(
                        GlResource::VertexArray(vertex_array),
                    ),
                    ..old(self)@
                })
            },
    {
        if self.program.is_none() {
            return Err(DrawerError::ShaderNotCompiled);
        }
        if num_values % VALUES_PER_VTX != 0 {
            return Err(DrawerError::LengthNotMultiple);
        }
        self.owned.push(GlResource::Buffer(vbo));
        self.owned.push(GlResource::VertexArray(vertex_array));
        self.vertex_array = Some(vertex_array);
        Ok(
            (
                AttribLayout { attrib: Attrib::Position, components: 2, stride_bytes: 20, offset_bytes: 0 },
                AttribLayout { attrib: Attrib::Color, components: 3, stride_bytes: 20, offset_bytes: 8 },
            ),
        )
    }

    /// Every GPU object the drawer was given, to be deleted by the host.
    pub fn destroy(&self) -> (r: Vec<GlResource>)
        ensures
            r@ == self@.owned,
    {
        self.owned.clone()
    }

    /// Draws the triangle.
    pub fn paint(&self) -> (r: Vec<GlCall>)
        ensures
            r@ == paint_spec(self@),
    {
        let mut calls: Vec<GlCall> = Vec::new();
        if self.program.is_none() || self.vertex_array.is_none() {
            return calls;
        }
        calls.push(GlCall::UseProgram(self.program.unwrap()));
        calls.push(GlCall::BindVertexArray(self.vertex_array));
        calls.push(GlCall::DrawArrays(Primitive::Triangles, 3));
        assert(calls@ =~= paint_spec(self@));
        calls
    }
}

impl Default for Drawer {
    fn default() -> (r: Drawer)
        ensures
            r@ == DrawerModel::empty(),
    {
        Drawer { program: None, vertex_array: None, owned: Vec::new() }
    }
}

} // verus!
