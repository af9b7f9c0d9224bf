use vstd::prelude::*;

use crate::matrix::Mat4;

verus! {

/// An RGB colour; each channel is the bit pattern of an `f32`.
pub type Rgb = [u32; 3];

/// Kinds of primitive that a draw call assembles from its vertices.
#[derive(Clone, Copy, PartialEq, Eq, Debug)]
pub enum Primitive {
    Points,
    Lines,
    LineStrip,
    LineLoop,
    Triangles,
    TriangleStrip,
    TriangleFan,
}

/// Uniform variables of the drawers' shader programs.
#[derive(Clone, Copy, PartialEq, Eq, Debug)]
pub enum Uniform {
    /// `vec3 color`
    Color,
    /// `mat4 matMV`
    ModelView,
    /// `mat4 matPrj`
    Projection,
    /// `bool is_texture`
    IsTexture,
    /// `mat4 Mvp`
    Mvp,
}

/// Vertex attributes of the drawers' shader programs.
#[derive(Clone, Copy, PartialEq, Eq, Debug)]
pub enum Attrib {
    /// `position`, `in_position` or `xyzIn`
    Position,
    /// `texIn`
    TexCoord,
    /// `in_color` or `rgbIn`
    Color,
}

/// Server-side capabilities that a drawer switches on.
#[derive(Clone, Copy, PartialEq, Eq, Debug)]
pub enum Capability {
    DepthTest,
    ProgramPointSize,
}

/// A GPU object owned by a drawer, by its handle.
#[derive(Clone, Copy, PartialEq, Eq, Debug)]
pub enum GlResource {
    Program(u32),
    VertexArray(u32),
    Buffer(u32),
}

/// How a float attribute is read from its vertex buffer.
#[derive(Clone, Copy, PartialEq, Eq, Debug)]
pub struct AttribLayout {
    pub attrib: Attrib,
    /// Number of `f32` components per vertex.
    pub components: usize,
    /// Distance in bytes between two consecutive vertices.
    pub stride_bytes: usize,
    /// Offset in bytes of the first component.
    pub offset_bytes: usize,
}

/// Why a drawer refused vertex data.
#[derive(Clone, Copy, PartialEq, Eq, Debug)]
pub enum DrawerError {
    /// The shader program has not been compiled yet.
    ShaderNotCompiled,
    /// Positions must have 2 or 3 components.
    InvalidDimension,
    /// The number of values is not a multiple of the values per vertex.
    LengthNotMultiple,
    /// The number of values does not match the primitives already set.
    LengthMismatch,
}

/// One call into the graphics API, in the order a drawer issues it.
#[derive(Clone, Copy, PartialEq, Eq, Debug)]
pub enum GlCall {
    UseProgram(u32),
    BindVertexArray(Option<u32>),
    Enable(Capability),
    /// Clear colour: white, opaque.
    ClearColorWhite,
    /// Clear the depth buffer.
    ClearDepth,
    Uniform1(Uniform, i32),
    Uniform3(Uniform, Rgb),
    UniformMatrix4(Uniform, Mat4),
    BindElementBuffer(u32),
    /// Indexed draw of `count` 32-bit indices from the bound element buffer.
    DrawElements(Primitive, usize),
    /// Non-indexed draw of `count` vertices from the first one.
    DrawArrays(Primitive, usize),
}

/// Number of indexed draw calls in a sequence of calls.
pub open spec fn count_indexed_draws(s: Seq<GlCall>) -> nat
    decreases s.len(),
{
    if s.len() == 0 {
        0
    } else {
        count_indexed_draws(s.drop_last()) + if s.last() is DrawElements {
            1nat
        } else {
            0nat
        }
    }
}

/// Number of non-indexed draw calls in a sequence of calls.
pub open spec fn count_array_draws(s: Seq<GlCall>) -> nat
    decreases s.len(),
{
    if s.len() == 0 {
        0
    } else {
        count_array_draws(s.drop_last()) + if s.last() is DrawArrays {
            1nat
        } else {
            0nat
        }
    }
}

/// Indexed draws of two call sequences add up.
pub proof fn lemma_count_indexed_draws_concat(a: Seq<GlCall>, b: Seq<GlCall>)
    ensures
        count_indexed_draws(a + b) == count_indexed_draws(a) + count_indexed_draws(b),
    decreases b.len(),
{
    if b.len() > 0 {
        assert((a + b).drop_last() =~= a + b.drop_last());
        lemma_count_indexed_draws_concat(a, b.drop_last());
    } else {
        assert(a + b =~= a);
    }
}

} // verus!
