//! Point-cloud drawer: every vertex of a position buffer drawn as a point.

use vstd::prelude::*;

use crate::gl_call::{Attrib, AttribLayout, Capability, DrawerError, GlCall, GlResource, Primitive, Uniform};
use crate::matrix::Mat4;

verus! {

/// Vertex stage, without its version line.
pub const VERTEX_SHADER_SOURCE: &'static str = r#"
uniform mat4 Mvp;
in vec3 xyzIn;
out vec3 v_color;
void main() {
    gl_Position = Mvp * vec4(xyzIn, 1.0);
    gl_PointSize = 5.0;
    v_color = vec3(1.0, 0.0, 0.0);
}
"#;

/// Fragment stage, without its version line.
pub const FRAGMENT_SHADER_SOURCE: &'static str = r#"
precision mediump float;
in vec3 v_color;
out vec4 out_color;
void main() {
    out_color = vec4(v_color, 1.0);
}
"#;

/// What a drawer holds, as plain values.
pub ghost struct DrawerModel {
    pub program: Option<u32>,
    pub vertex_array: Option<u32>,
    pub num_vtx: nat,
    /// Every GPU object handed to the drawer, in the order it came.
    pub owned: Seq<GlResource>,
}

impl DrawerModel {
    pub open spec fn is_drawable(self) -> bool {
        self.program is Some && self.vertex_array is Some
    }

    pub open spec fn empty() -> DrawerModel {
        DrawerModel { program: None, vertex_array: None, num_vtx: 0, owned: Seq::empty() }
    }
}

/// What `draw` issues: every vertex as a point, under `mvp`.
pub open spec fn draw_spec(m: DrawerModel, mvp: Mat4) -> Seq<GlCall> {
    if m.is_drawable() {
        seq![
            GlCall::UseProgram(m.program->0),
            GlCall::UniformMatrix4(Uniform::Mvp, mvp),
            GlCall::Enable(Capability::ProgramPointSize),
            GlCall::BindVertexArray(m.vertex_array),
            GlCall::DrawArrays(Primitive::Points, m.num_vtx as usize),
        ]
    } else {
        Seq::empty()
    }
}

pub struct Drawer {
    pub program: Option<u32>,
    num_vtx: usize,
    pub vertex_array: Option<u32>,
    owned: Vec<GlResource>,
}

impl View for Drawer {
    type V = DrawerModel;

    closed spec fn view(&self) -> DrawerModel {
        DrawerModel {
            program: self.program,
            vertex_array: self.vertex_array,
            num_vtx: self.num_vtx as nat,
            owned: self.owned@,
        }
    }
}

impl Drawer {
    pub fn new() -> (r: Drawer)
        ensures
            r@ == DrawerModel::empty(),
    {
        Drawer { program: None, num_vtx: 0, vertex_array: None, owned: Vec::new() }
    }

    /// Number of points.
    pub fn num_vtx(&self) -> (r: usize)
        ensures
            r == self@.num_vtx,
    {
        self.num_vtx
    }

    /// Takes the program linked from `VERTEX_SHADER_SOURCE` and
    /// `FRAGMENT_SHADER_SOURCE`; the drawer owns it from now on.
    pub fn compile_shader(&mut self, program: u32)
        ensures
            final(self)@ == (DrawerModel {
                program: Some(program),
                owned: old(self)@.owned.push(GlResource::Program(program)),
                ..old(self)@
            }),
    {
        self.program = Some(program);
        self.owned.push(GlResource::Program(program));
    }

    /// Takes `num_values` position values, three per point, uploaded to the
    /// vertex buffer `vbo` and read through the new vertex array `vertex_array`.
    pub fn set_vtx2xyz(&mut self, num_values: usize, vertex_array: u32, vbo: u32) -> (r: Result<
        AttribLayout,
        DrawerError,
    >)
        ensures
            old(self)@.program is None ==> r == Err::<AttribLayout, DrawerError>(
                DrawerError::ShaderNotCompiled,
            ),
            old(self)@.program is Some && num_values % 3 != 0 ==> r == Err::<
                AttribLayout,
                DrawerError,
            >(DrawerError::LengthNotMultiple),
            r is Err ==> final(self)@ == old(self)@,
            old(self)@.program is Some && num_values % 3 == 0 ==> {
                &&& r == Ok::<AttribLayout, DrawerError>(
                    AttribLayout {
                        attrib: Attrib::Position,
                        components: 3,
                        stride_bytes: 12,
                        offset_bytes: 0,
                    },
                )
                &&& final(self)@ == (DrawerModel {
                    vertex_array: Some(vertex_array),
                    num_vtx: (num_values / 3) as nat,
                    owned: old(self)@.owned.push(GlResource::VertexArray(vertex_array)).push(
                        GlResource::Buffer(vbo),
                    ),
                    ..old(self)@
                })
            },
    {
        if self.program.is_none() {
            return Err(DrawerError::ShaderNotCompiled);
        }
        if num_values % 3 != 0 {
            return Err(DrawerError::LengthNotMultiple);
        }
        self.num_vtx = num_values / 3;
        self.vertex_array = Some(vertex_array);
        self.owned.push(GlResource::VertexArray(vertex_array));
        self.owned.push(GlResource::Buffer(vbo));
        Ok(AttribLayout { attrib: Attrib::Position, components: 3, stride_bytes: 12, offset_bytes: 0 })
    }

    /// Every GPU object the drawer was given, to be deleted by the host.
    pub fn destroy(&self) -> (r: Vec<GlResource>)
        ensures
            r@ == self@.owned,
    {
        self.owned.clone()
    }

    /// Draws every vertex as a point under `mvp`.
    pub fn draw(&self, mvp: &Mat4) -> (r: Vec<GlCall>)
        ensures
            r@ == draw_spec(self@, *mvp),
    {
        let mut calls: Vec<GlCall> = Vec::new();
        if self.program.is_none() || self.vertex_array.is_none() {
            return calls;
        }
        calls.push(GlCall::UseProgram(self.program.unwrap()));
        calls.push(GlCall::UniformMatrix4(Uniform::Mvp, *mvp));
        calls.push(GlCall::Enable(Capability::ProgramPointSize));
        calls.push(GlCall::BindVertexArray(self.vertex_array));
        calls.push(GlCall::DrawArrays(Primitive::Points, self.num_vtx));
        assert(calls@ =~= draw_spec(self@, *mvp));
        calls
    }
}

impl Default for Drawer {
    fn default() -> (r: Drawer)
        ensures
            r@ == DrawerModel::empty(),
    {
        Drawer::new()
    }
}

} // verus!
