use del_glow::drawer_edge2::{polyloop_edges, QUAD_VTX2XY};
use del_glow::drawer_elem2vtx_vtx2xyz::BLACK;
use del_glow::{
    drawer_array_xyrgb, drawer_edge2, drawer_elem2vtx_vtx2xyz_vtx2uv, drawer_mesh,
    drawer_mesh2_at_multiple_loc2s, drawer_tri2node2xyz_tri2node2rgb, drawer_vtx2xyz,
    identity_mat4, mat4_z_flip, Attrib, AttribLayout, Capability, DrawerError, GlCall, GlResource,
    Mat4, Primitive, Rgb, Uniform,
};

fn bits16(m: [f32; 16]) -> Mat4 {
    let mut r = [0u32; 16];
    for i in 0..16 {
        r[i] = m[i].to_bits();
    }
    r
}

fn rgb(r: f32, g: f32, b: f32) -> Rgb {
    [r.to_bits(), g.to_bits(), b.to_bits()]
}

fn sample_prj() -> Mat4 {
    bits16([
        1.0, 0.0, 0.5, 0.0, 0.0, 1.0, -0.5, 0.0, 0.0, 0.0, 2.0, 0.0, 0.0, 0.0, -3.0, 1.0,
    ])
}

fn count_indexed(calls: &[GlCall]) -> usize {
    calls.iter().filter(|c| matches!(c, GlCall::DrawElements(_, _))).count()
}

fn count_arrays(calls: &[GlCall]) -> usize {
    calls.iter().filter(|c| matches!(c, GlCall::DrawArrays(_, _))).count()
}

#[test]
fn z_flip_twice_is_identity() {
    let m = sample_prj();
    let once = mat4_z_flip(&m);
    assert_ne!(once, m);
    assert_eq!(mat4_z_flip(&once), m);
    for i in 0..16 {
        let v = f32::from_bits(m[i]);
        let w = f32::from_bits(once[i]);
        if i % 4 == 2 {
            assert_eq!(w, -v);
        } else {
            assert_eq!(once[i], m[i]);
        }
    }
}

#[test]
fn z_flip_negates_zero_to_negative_zero() {
    let m = identity_mat4();
    let once = mat4_z_flip(&m);
    assert_eq!(once[2], (-0.0f32).to_bits());
    assert_eq!(f32::from_bits(once[10]), -1.0);
    assert_eq!(mat4_z_flip(&once), m);
}

#[test]
fn identity_has_ones_on_the_diagonal() {
    let m = identity_mat4();
    for i in 0..16 {
        let expected = if i % 5 == 0 { 1.0f32 } else { 0.0f32 };
        assert_eq!(f32::from_bits(m[i]), expected);
    }
}

#[test]
fn textured_draw_chooses_color_or_texture_per_pass() {
    let mut d = drawer_elem2vtx_vtx2xyz_vtx2uv::Drawer::new();
    d.compile_shader(1, 2);
    let idx = d.add_elem2vtx(Primitive::Lines, &[0usize, 1], None, 3);
    assert_eq!(idx, vec![0u32, 1]);
    let red = rgb(1.0, 0.0, 0.0);
    d.add_elem2vtx(Primitive::Triangles, &[0usize, 1, 2], Some(red), 4);
    d.update_vtx2xyz(9, 3, 5).unwrap();
    let uv = d.set_vtx2uv(6, 6).unwrap();
    assert_eq!(
        uv,
        AttribLayout { attrib: Attrib::TexCoord, components: 2, stride_bytes: 8, offset_bytes: 0 }
    );
    let mv = identity_mat4();
    let prj = sample_prj();
    let flipped = mat4_z_flip(&prj);
    let calls = d.draw(&mv, &prj);
    assert_eq!(
        calls,
        vec![
            GlCall::BindVertexArray(Some(2)),
            GlCall::UseProgram(1),
            GlCall::Uniform1(Uniform::IsTexture, 1),
            GlCall::UniformMatrix4(Uniform::ModelView, mv),
            GlCall::UniformMatrix4(Uniform::Projection, flipped),
            GlCall::BindElementBuffer(3),
            GlCall::DrawElements(Primitive::Lines, 2),
            GlCall::Uniform1(Uniform::IsTexture, 0),
            GlCall::Uniform3(Uniform::Color, red),
            GlCall::UniformMatrix4(Uniform::ModelView, mv),
            GlCall::UniformMatrix4(Uniform::Projection, flipped),
            GlCall::BindElementBuffer(4),
            GlCall::DrawElements(Primitive::Triangles, 3),
            GlCall::BindVertexArray(None),
        ]
    );
    let points = d.draw_points(&mv, &prj);
    assert_eq!(points[4], GlCall::DrawArrays(Primitive::Points, 3));
    assert_eq!(points[3], GlCall::UniformMatrix4(Uniform::Projection, flipped));
}

#[test]
fn textured_drawer_refuses_odd_uv_count() {
    let mut d = drawer_elem2vtx_vtx2xyz_vtx2uv::Drawer::default();
    assert_eq!(d.set_vtx2uv(4, 3), Err(DrawerError::ShaderNotCompiled));
    d.compile_shader(1, 2);
    assert_eq!(d.set_vtx2uv(5, 3), Err(DrawerError::LengthNotMultiple));
    assert_eq!(d.update_vtx2xyz(7, 2, 3), Err(DrawerError::LengthNotMultiple));
    assert_eq!(d.destroy(), vec![GlResource::Program(1), GlResource::VertexArray(2)]);
}

#[test]
fn mesh_drawer_clears_depth_once_per_frame() {
    let mut d = drawer_mesh::Drawer::new();
    d.compile_shader(1, 2);
    d.update_vertex(9, 3, 3).unwrap();
    let red = rgb(1.0, 0.0, 0.0);
    d.add_element(Primitive::Triangles, &vec![0usize, 1, 2], red, 4);
    d.add_element(Primitive::Lines, &vec![0usize, 1, 1, 2, 2, 0], BLACK, 5);
    let mv = identity_mat4();
    let prj = sample_prj();
    let calls = d.draw(&mv, &prj);
    assert_eq!(
        calls[..5].to_vec(),
        vec![
            GlCall::ClearColorWhite,
            GlCall::ClearDepth,
            GlCall::Enable(Capability::DepthTest),
            GlCall::UseProgram(1),
            GlCall::BindVertexArray(Some(2)),
        ]
    );
    assert_eq!(calls.len(), 15);
    assert_eq!(calls[9], GlCall::DrawElements(Primitive::Triangles, 3));
    assert_eq!(calls[14], GlCall::DrawElements(Primitive::Lines, 6));
    assert_eq!(d.num_element_buffers(), 2);
    assert_eq!(d.num_point(), 3);
    let points = d.draw_points(&mv, &prj);
    assert_eq!(points.len(), 6);
    assert_eq!(points[5], GlCall::DrawArrays(Primitive::Points, 3));
}

#[test]
fn edge_drawer_sets_up_unit_quad() {
    let mut d = drawer_edge2::Drawer::new();
    let up = d.compile_shader(1, 2, 3, 4);
    assert_eq!(up.tri2vtx, vec![0u32, 1, 2, 0, 2, 3]);
    assert_eq!(up.vtx2xy, QUAD_VTX2XY);
    let corners: Vec<f32> = up.vtx2xy.iter().map(|b| f32::from_bits(*b)).collect();
    assert_eq!(corners, vec![0.0, 0.0, 1.0, 0.0, 1.0, 1.0, 0.0, 1.0]);
    assert_eq!(up.layout.components, 2);
    assert_eq!(d.drawer_quad.num_point(), 4);
    let green = rgb(0.0, 1.0, 0.0);
    d.set_color(&green);
    assert_eq!(d.drawer_quad.element_buffer(0).color, green);
    let mvp = identity_mat4();
    let model = sample_prj();
    let calls = d.draw_edge2(&mvp, &model);
    assert_eq!(calls[4], GlCall::UniformMatrix4(Uniform::ModelView, model));
    assert_eq!(calls[5], GlCall::UniformMatrix4(Uniform::Projection, mvp));
    assert_eq!(calls[7], GlCall::DrawElements(Primitive::Triangles, 6));
    assert_eq!(
        d.destroy(),
        vec![
            GlResource::Program(1),
            GlResource::VertexArray(2),
            GlResource::Buffer(3),
            GlResource::Buffer(4),
        ]
    );
}

#[test]
fn polyloop_edges_wrap_around() {
    assert_eq!(polyloop_edges(4), vec![(0, 1), (1, 2), (2, 3), (3, 0)]);
    assert_eq!(polyloop_edges(1), vec![(0, 0)]);
    assert!(polyloop_edges(0).is_empty());
}

#[test]
fn polyloop_draws_one_segment_per_vertex() {
    let mut d = drawer_edge2::Drawer::default();
    d.compile_shader(1, 2, 3, 4);
    let mvp = identity_mat4();
    let edges = polyloop_edges(5);
    let models: Vec<Mat4> = edges
        .iter()
        .map(|(i0, _)| {
            let mut m = identity_mat4();
            m[12] = (*i0 as f32).to_bits();
            m
        })
        .collect();
    let calls = d.draw_polyloop2(&mvp, &models);
    assert_eq!(count_indexed(&calls), 5);
    assert_eq!(calls[4], GlCall::UniformMatrix4(Uniform::ModelView, models[0]));
    assert_eq!(calls[9 + 4], GlCall::UniformMatrix4(Uniform::ModelView, models[1]));
    assert!(d.draw_polyloop2(&mvp, &[]).is_empty());
}

#[test]
fn mesh2_drawer_draws_with_identity_model() {
    let mut d = drawer_mesh2_at_multiple_loc2s::Drawer::new();
    assert_eq!(d.add_mesh2(&[0, 1, 2], 6, 3, 4), Err(DrawerError::ShaderNotCompiled));
    d.compile_shader(1, 2);
    assert_eq!(d.add_mesh2(&[0, 1, 2], 5, 3, 4), Err(DrawerError::LengthNotMultiple));
    let (idx, layout) = d.add_mesh2(&[0, 1, 2, 0, 2, 3], 8, 3, 4).unwrap();
    assert_eq!(idx, vec![0u32, 1, 2, 0, 2, 3]);
    assert_eq!(layout.stride_bytes, 8);
    assert_eq!(d.drawer_quad.num_point(), 4);
    let mvp = sample_prj();
    let calls = d.draw(&mvp);
    assert_eq!(calls[4], GlCall::UniformMatrix4(Uniform::ModelView, identity_mat4()));
    assert_eq!(calls[5], GlCall::UniformMatrix4(Uniform::Projection, mvp));
    assert_eq!(calls[7], GlCall::DrawElements(Primitive::Triangles, 6));
    assert_eq!(d.destroy().len(), 4);
}

#[test]
fn flat_drawer_accepts_nine_values_per_triangle() {
    let mut d = drawer_tri2node2xyz_tri2node2rgb::Drawer::new();
    assert_eq!(d.update_tri2node2xyz(18, 3), Err(DrawerError::ShaderNotCompiled));
    d.compile_shader(1, 2);
    assert_eq!(d.update_tri2node2xyz(17, 3), Err(DrawerError::LengthNotMultiple));
    let xyz = d.update_tri2node2xyz(18, 3).unwrap();
    assert_eq!(
        xyz,
        AttribLayout { attrib: Attrib::Position, components: 3, stride_bytes: 12, offset_bytes: 0 }
    );
    assert_eq!(d.num_elem(), 2);
    assert_eq!(d.update_tri2node2rgb(9, 4), Err(DrawerError::LengthMismatch));
    assert_eq!(d.update_tri2node2rgb(27, 4), Err(DrawerError::LengthMismatch));
    let color = d.update_tri2node2rgb(18, 4).unwrap();
    assert_eq!(color.attrib, Attrib::Color);
}

#[test]
fn flat_drawer_draws_once_with_three_vertices_per_triangle() {
    let mut d = drawer_tri2node2xyz_tri2node2rgb::Drawer::default();
    let mvp = sample_prj();
    assert!(d.draw(&mvp).is_empty());
    d.compile_shader(1, 2);
    d.update_tri2node2xyz(27, 3).unwrap();
    d.update_tri2node2rgb(27, 4).unwrap();
    let calls = d.draw(&mvp);
    assert_eq!(
        calls,
        vec![
            GlCall::BindVertexArray(Some(2)),
            GlCall::UseProgram(1),
            GlCall::UniformMatrix4(Uniform::Mvp, mvp),
            GlCall::DrawArrays(Primitive::Triangles, 9),
            GlCall::BindVertexArray(None),
        ]
    );
    assert_eq!(count_arrays(&calls), 1);
    assert_eq!(count_indexed(&calls), 0);
    assert_eq!(d.destroy().len(), 4);
}

#[test]
fn point_cloud_drawer_draws_every_point() {
    let mut d = drawer_vtx2xyz::Drawer::new();
    assert_eq!(d.set_vtx2xyz(9, 2, 3), Err(DrawerError::ShaderNotCompiled));
    d.compile_shader(1);
    assert!(d.draw(&identity_mat4()).is_empty());
    assert_eq!(d.set_vtx2xyz(8, 2, 3), Err(DrawerError::LengthNotMultiple));
    d.set_vtx2xyz(9, 2, 3).unwrap();
    assert_eq!(d.num_vtx(), 3);
    let mvp = sample_prj();
    assert_eq!(
        d.draw(&mvp),
        vec![
            GlCall::UseProgram(1),
            GlCall::UniformMatrix4(Uniform::Mvp, mvp),
            GlCall::Enable(Capability::ProgramPointSize),
            GlCall::BindVertexArray(Some(2)),
            GlCall::DrawArrays(Primitive::Points, 3),
        ]
    );
    assert_eq!(
        d.destroy(),
        vec![GlResource::Program(1), GlResource::VertexArray(2), GlResource::Buffer(3)]
    );
}

#[test]
fn xyrgb_drawer_interleaves_position_and_color() {
    let mut d = drawer_array_xyrgb::Drawer::default();
    assert!(d.paint().is_empty());
    d.compile_shader(1);
    assert_eq!(d.new(14, 2, 3), Err(DrawerError::LengthNotMultiple));
    let (xy, rgb_layout) = d.new(15, 2, 3).unwrap();
    assert_eq!(
        xy,
        AttribLayout { attrib: Attrib::Position, components: 2, stride_bytes: 20, offset_bytes: 0 }
    );
    assert_eq!(
        rgb_layout,
        AttribLayout { attrib: Attrib::Color, components: 3, stride_bytes: 20, offset_bytes: 8 }
    );
    assert_eq!(
        d.paint(),
        vec![
            GlCall::UseProgram(1),
            GlCall::BindVertexArray(Some(3)),
            GlCall::DrawArrays(Primitive::Triangles, 3),
        ]
    );
    assert_eq!(d.destroy().len(), 3);
}
