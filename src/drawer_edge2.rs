//! Thick 2D line segments: a unit quad drawn through the indexed drawer,
//! stretched onto each segment by a model matrix.

use vstd::prelude::*;

use crate::drawer_elem2vtx_vtx2xyz as indexed;
use crate::drawer_elem2vtx_vtx2xyz::{DrawerModel, ElementBufferObject, BLACK};
use crate::gl_call::{count_indexed_draws, lemma_count_indexed_draws_concat, Attrib, AttribLayout, GlCall, GlResource, Primitive, Rgb};
use crate::matrix::{Mat4, ONE_BITS};
use vstd::arithmetic::div_mod::{lemma_mod_self_0, lemma_small_mod};

verus! {

/// Corners of the unit quad, `(0,0) (1,0) (1,1) (0,1)`, as `f32` bits.
pub const QUAD_VTX2XY: [u32; 8] = [0, 0, ONE_BITS, 0, ONE_BITS, ONE_BITS, 0, ONE_BITS];

/// What the host uploads for the unit quad.
pub struct QuadUpload {
    /// The two triangles, for the index buffer.
    pub tri2vtx: Vec<u32>,
    /// The corners, for the vertex buffer.
    pub vtx2xy: [u32; 8],
    /// How the position attribute reads the corners.
    pub layout: AttribLayout,
}

/// The indexed drawer once the unit quad is set up in it.
pub open spec fn quad_model(
    m: DrawerModel,
    program: u32,
    vertex_array: u32,
    ebo: u32,
    vbo: u32,
) -> DrawerModel {
    DrawerModel {
        program: Some(program),
        vertex_array: Some(vertex_array),
        ndim: 2,
        num_point: 4,
        ebos: m.ebos.push(
            ElementBufferObject { mode: Primitive::Triangles, elem_size: 6, ebo, color: BLACK },
        ),
        owned: m.owned.push(GlResource::Program(program)).push(
            GlResource::VertexArray(vertex_array),
        ).push(GlResource::Buffer(ebo)).push(GlResource::Buffer(vbo)),
    }
}

/// The calls that draw the quad once per model matrix, in order.
pub open spec fn polyloop_spec(quad: DrawerModel, mvp: Mat4, edge2model: Seq<Mat4>) -> Seq<GlCall>
    decreases edge2model.len(),
{
    if edge2model.len() == 0 {
        Seq::empty()
    } else {
        polyloop_spec(quad, mvp, edge2model.drop_last()) + indexed::draw_spec(
            quad,
            edge2model.last(),
            mvp,
        )
    }
}

/// Drawing a closed polyline issues one draw of the quad's passes per edge:
/// with the single pass that `compile_shader` sets up, one indexed draw per edge.
pub proof fn lemma_polyloop_draw_count(quad: DrawerModel, mvp: Mat4, edge2model: Seq<Mat4>)
    requires
        quad.is_drawable(),
    ensures
        count_indexed_draws(polyloop_spec(quad, mvp, edge2model)) == edge2model.len()
            * quad.ebos.len(),
    decreases edge2model.len(),
{
    if edge2model.len() > 0 {
        lemma_polyloop_draw_count(quad, mvp, edge2model.drop_last());
        indexed::lemma_draw_count(quad, edge2model.last(), mvp);
        lemma_count_indexed_draws_concat(
            polyloop_spec(quad, mvp, edge2model.drop_last()),
            indexed::draw_spec(quad, edge2model.last(), mvp),
        );
        assert((edge2model.len() - 1) * quad.ebos.len() + quad.ebos.len() == edge2model.len()
            * quad.ebos.len()) by (nonlinear_arith);
    }
}

/// A closed polyline over `num_vtx` vertices, drawn with the quad that
/// `compile_shader` sets up in a fresh drawer, issues exactly `num_vtx`
/// segment draws: one per edge of `polyloop_edges(num_vtx)`, the edge from
/// the last vertex back to the first included.
pub proof fn lemma_polyloop_one_draw_per_edge(
    quad: DrawerModel,
    mvp: Mat4,
    edge2model: Seq<Mat4>,
    num_vtx: nat,
)
    requires
        quad.is_drawable(),
        quad.ebos.len() == 1,
        edge2model.len() == num_vtx,
    ensures
        count_indexed_draws(polyloop_spec(quad, mvp, edge2model)) == num_vtx,
{
    lemma_polyloop_draw_count(quad, mvp, edge2model);
}

/// The edges of a closed polyline over `num_vtx` vertices: vertex `i` to
/// vertex `i + 1`, and the last vertex back to the first.
pub fn polyloop_edges(num_vtx: usize) -> (r: Vec<(usize, usize)>)
    ensures
        r@.len() == num_vtx,
        forall|i: int|
            0 <= i < num_vtx ==> #[trigger] r@[i] == (i as usize, ((i + 1) % (num_vtx as int)) as usize),
{
    let mut r: Vec<(usize, usize)> = Vec::with_capacity(num_vtx);
    let mut i0_vtx: usize = 0;
    while i0_vtx < num_vtx
        invariant
            i0_vtx <= num_vtx,
            r@.len() == i0_vtx,
            forall|i: int|
                0 <= i < i0_vtx ==> #[trigger] r@[i] == (i as usize, ((i + 1) % (num_vtx as int)) as usize),
        decreases num_vtx - i0_vtx,
    {
        let i1_vtx = if i0_vtx + 1 == num_vtx { 0 } else { i0_vtx + 1 };
        proof {
            if i0_vtx + 1 == num_vtx {
                lemma_mod_self_0(num_vtx as int);
            } else {
                lemma_small_mod((i0_vtx + 1) as nat, num_vtx as nat);
            }
        }
        r.push((i0_vtx, i1_vtx));
        i0_vtx += 1;
    }
    r
}

pub struct Drawer {
    pub drawer_quad: indexed::Drawer,
}

impl Drawer {
    pub fn new() -> (r: Drawer)
        ensures
            r.drawer_quad@ == DrawerModel::empty(),
    {
        Drawer { drawer_quad: indexed::Drawer::new() }
    }

    /// Takes the program linked from the indexed drawer's shader sources, a
    /// new vertex array and two new buffers, and sets the unit quad up in
    /// them: two black triangles `(0,1,2) (0,2,3)` in `ebo`, the corners in `vbo`.
    pub fn compile_shader(&mut self, program: u32, vertex_array: u32, ebo: u32, vbo: u32) -> (r:
        QuadUpload)
        requires
            old(self).drawer_quad@.wf(),
        ensures
            r.tri2vtx@ == seq![0u32, 1, 2, 0, 2, 3],
            r.vtx2xy == QUAD_VTX2XY,
            r.layout == (AttribLayout {
                attrib: Attrib::Position,
                components: 2,
                stride_bytes: 8,
                offset_bytes: 0,
            }),
            final(self).drawer_quad@ == quad_model(old(self).drawer_quad@, program, vertex_array, ebo, vbo),
            final(self).drawer_quad@.wf(),
    {
        self.drawer_quad.compile_shader(program, vertex_array);
        let tri2vtx: Vec<u32> = vec![0, 1, 2, 0, 2, 3];
        let tri2vtx = self.drawer_quad.add_elem2vtx(Primitive::Triangles, tri2vtx.as_slice(), BLACK, ebo);
        let _ = self.drawer_quad.set_vtx2xyz(8, 2, vbo);
        QuadUpload {
            tri2vtx,
            vtx2xy: QUAD_VTX2XY,
            layout: AttribLayout {
                attrib: Attrib::Position,
                components: 2,
                stride_bytes: 8,
                offset_bytes: 0,
            },
        }
    }

    /// Sets the colour of the segments.
    pub fn set_color(&mut self, rgb: &Rgb)
        requires
            old(self).drawer_quad@.ebos.len() > 0,
            old(self).drawer_quad@.wf(),
        ensures
            final(self).drawer_quad@ == (DrawerModel {
                ebos: old(self).drawer_quad@.ebos.update(
                    0,
                    ElementBufferObject { color: *rgb, ..old(self).drawer_quad@.ebos[0] },
                ),
                ..old(self).drawer_quad@
            }),
            final(self).drawer_quad@.wf(),
    {
        self.drawer_quad.set_color(0, rgb);
    }

    /// Every GPU object of the quad, to be deleted by the host.
    pub fn destroy(&self) -> (r: Vec<GlResource>)
        ensures
            r@ == self.drawer_quad@.owned,
    {
        self.drawer_quad.destroy()
    }

    /// Draws one segment: the quad under `model`, the matrix that maps the
    /// unit quad onto the segment, with `mvp` as the projection.
    pub fn draw_edge2(&self, mvp: &Mat4, model: &Mat4) -> (r: Vec<GlCall>)
        ensures
            r@ == indexed::draw_spec(self.drawer_quad@, *model, *mvp),
    {
        self.drawer_quad.draw(model, mvp)
    }

    /// Draws a closed polyline: one segment per entry of `edge2model`, the
    /// model matrix of the edge at the same position of `polyloop_edges`.
    pub fn draw_polyloop2(&self, mvp: &Mat4, edge2model: &[Mat4]) -> (r: Vec<GlCall>)
        ensures
            r@ == polyloop_spec(self.drawer_quad@, *mvp, edge2model@),
    {
        let mut calls: Vec<GlCall> = Vec::new();
        let mut i: usize = 0;
        while i < edge2model.len()
            invariant
                i <= edge2model@.len(),
                calls@ == polyloop_spec(self.drawer_quad@, *mvp, edge2model@.take(i as int)),
            decreases edge2model@.len() - i,
        {
            let mut edge_calls = self.draw_edge2(mvp, &edge2model[i]);
            calls.append(&mut edge_calls);
            proof {
                assert(edge2model@.take(i + 1).drop_last() =~= edge2model@.take(i as int));
            }
            i += 1;
        }
        assert(edge2model@.take(i as int) =~= edge2model@);
        calls
    }
}

impl Default for Drawer {
    fn default() -> (r: Drawer)
        ensures
            r.drawer_quad@ == DrawerModel::empty(),
    {
        Drawer::new()
    }
}

} // verus!
