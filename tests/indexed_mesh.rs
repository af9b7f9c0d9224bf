use del_glow::drawer_elem2vtx_vtx2xyz::{Drawer, ElementBufferObject, BLACK};
use del_glow::{
    identity_mat4, mat4_z_flip, to_u32_indices, Attrib, AttribLayout, Capability, DrawerError,
    GlCall, GlResource, Mat4, Primitive, Rgb, Uniform,
};

fn bits16(m: [f32; 16]) -> Mat4 {
    let mut r = [0u32; 16];
    for i in 0..16 {
        r[i] = m[i].to_bits();
    }
    r
}

fn rgb(r: f32, g: f32, b: f32) -> Rgb {
    [r.to_bits(), g.to_bits(), b.to_bits()]
}

fn indexed_draws(calls: &[GlCall]) -> Vec<(Primitive, usize)> {
    calls
        .iter()
        .filter_map(|c| match c {
            GlCall::DrawElements(mode, count) => Some((*mode, *count)),
            _ => None,
        })
        .collect()
}

fn sample_mv() -> Mat4 {
    bits16([
        1.0, 0.0, 0.0, 0.0, 0.0, 1.0, 0.0, 0.0, 0.0, 0.0, 1.0, 0.0, 0.5, -0.5, 0.25, 1.0,
    ])
}

fn sample_prj() -> Mat4 {
    bits16([
        2.0, 0.1, 0.2, 0.3, 0.4, 2.0, 0.6, 0.7, 0.8, 0.9, -1.5, -1.0, 1.1, 1.2, 1.3, 0.0,
    ])
}

#[test]
fn indices_of_every_width_normalize_alike() {
    let from_u8 = to_u32_indices(&[0u8, 1, 2, 255]);
    let from_u16 = to_u32_indices(&[0u16, 1, 2, 255]);
    let from_u32 = to_u32_indices(&[0u32, 1, 2, 255]);
    let from_u64 = to_u32_indices(&[0u64, 1, 2, 255]);
    let from_usize = to_u32_indices(&[0usize, 1, 2, 255]);
    let from_i32 = to_u32_indices(&[0i32, 1, 2, 255]);
    let expected: Vec<u32> = vec![0, 1, 2, 255];
    assert_eq!(from_u8, expected);
    assert_eq!(from_u16, expected);
    assert_eq!(from_u32, expected);
    assert_eq!(from_u64, expected);
    assert_eq!(from_usize, expected);
    assert_eq!(from_i32, expected);
}

#[test]
fn indices_wider_than_32_bits_wrap() {
    assert_eq!(to_u32_indices(&[(1u64 << 32) + 5, u64::MAX]), vec![5u32, u32::MAX]);
    assert_eq!(to_u32_indices(&[-1i32, i32::MIN]), vec![u32::MAX, 0x8000_0000u32]);
    assert_eq!(to_u32_indices::<u16>(&[]), Vec::<u32>::new());
}

#[test]
fn add_elem2vtx_records_count_and_returns_u32_indices() {
    let mut d = Drawer::new();
    d.compile_shader(1, 2);
    let idx = d.add_elem2vtx(Primitive::Lines, &[3u16, 4, 4, 5, 5, 3], BLACK, 7);
    assert_eq!(idx, vec![3u32, 4, 4, 5, 5, 3]);
    assert_eq!(d.num_element_buffers(), 1);
    assert_eq!(
        d.element_buffer(0),
        ElementBufferObject { mode: Primitive::Lines, elem_size: 6, ebo: 7, color: BLACK }
    );
    let idx = d.add_elem2vtx(Primitive::Triangles, &[0usize, 1, 2], rgb(1.0, 0.0, 0.0), 8);
    assert_eq!(idx, vec![0u32, 1, 2]);
    assert_eq!(d.element_buffer(1).elem_size, 3);
}

#[test]
fn set_vtx2xyz_counts_vertices_for_two_and_three_components() {
    let mut d = Drawer::new();
    d.compile_shader(1, 2);
    let layout = d.set_vtx2xyz(12, 3, 9).unwrap();
    assert_eq!(
        layout,
        AttribLayout { attrib: Attrib::Position, components: 3, stride_bytes: 12, offset_bytes: 0 }
    );
    assert_eq!(d.num_point(), 4);
    assert_eq!(d.ndim(), 3);
    let layout = d.set_vtx2xyz(12, 2, 10).unwrap();
    assert_eq!(layout.stride_bytes, 8);
    assert_eq!(d.num_point(), 6);
    assert_eq!(d.ndim(), 2);
}

#[test]
fn set_vtx2xyz_refuses_bad_input() {
    let mut d = Drawer::new();
    assert_eq!(d.set_vtx2xyz(6, 3, 9), Err(DrawerError::ShaderNotCompiled));
    d.compile_shader(1, 2);
    assert_eq!(d.set_vtx2xyz(10, 3, 9), Err(DrawerError::LengthNotMultiple));
    assert_eq!(d.set_vtx2xyz(8, 4, 9), Err(DrawerError::InvalidDimension));
    assert_eq!(d.set_vtx2xyz(8, 0, 9), Err(DrawerError::InvalidDimension));
    assert_eq!(d.num_point(), 0);
    assert_eq!(d.ndim(), 0);
    assert_eq!(d.destroy(), vec![GlResource::Program(1), GlResource::VertexArray(2)]);
}

#[test]
fn quad_mesh_draws_one_indexed_triangle_call_of_six() {
    let mut d = Drawer::new();
    d.compile_shader(1, 2);
    let idx = d.add_elem2vtx(Primitive::Triangles, &[0u32, 1, 2, 0, 2, 3], rgb(0.8, 0.8, 0.9), 3);
    assert_eq!(idx.len(), 6);
    d.set_vtx2xyz(12, 3, 4).unwrap();
    let calls = d.draw(&sample_mv(), &sample_prj());
    assert_eq!(indexed_draws(&calls), vec![(Primitive::Triangles, 6)]);
}

#[test]
fn draw_issues_passes_in_insertion_order() {
    let mut d = Drawer::new();
    d.compile_shader(11, 12);
    let red = rgb(1.0, 0.0, 0.0);
    d.add_elem2vtx(Primitive::Triangles, &[0u32, 1, 2], red, 13);
    d.add_elem2vtx(Primitive::Lines, &[0u32, 1, 1, 2], BLACK, 14);
    d.set_vtx2xyz(9, 3, 15).unwrap();
    let mv = sample_mv();
    let prj = sample_prj();
    let calls = d.draw(&mv, &prj);
    let expected = vec![
        GlCall::UseProgram(11),
        GlCall::BindVertexArray(Some(12)),
        GlCall::Enable(Capability::DepthTest),
        GlCall::Uniform3(Uniform::Color, red),
        GlCall::UniformMatrix4(Uniform::ModelView, mv),
        GlCall::UniformMatrix4(Uniform::Projection, prj),
        GlCall::BindElementBuffer(13),
        GlCall::DrawElements(Primitive::Triangles, 3),
        GlCall::Enable(Capability::DepthTest),
        GlCall::Uniform3(Uniform::Color, BLACK),
        GlCall::UniformMatrix4(Uniform::ModelView, mv),
        GlCall::UniformMatrix4(Uniform::Projection, prj),
        GlCall::BindElementBuffer(14),
        GlCall::DrawElements(Primitive::Lines, 4),
        GlCall::BindVertexArray(None),
    ];
    assert_eq!(calls, expected);
}

#[test]
fn draw_before_vertices_or_shader_is_empty() {
    let mut d = Drawer::new();
    assert!(d.draw(&sample_mv(), &sample_prj()).is_empty());
    d.compile_shader(1, 2);
    d.add_elem2vtx(Primitive::Triangles, &[0u32, 1, 2], BLACK, 3);
    assert!(d.draw(&sample_mv(), &sample_prj()).is_empty());
    assert!(d.draw_points(&sample_mv(), &sample_prj()).is_empty());
}

#[test]
fn draw_with_no_element_buffer_draws_nothing() {
    let mut d = Drawer::new();
    d.compile_shader(1, 2);
    d.set_vtx2xyz(6, 3, 3).unwrap();
    let calls = d.draw(&sample_mv(), &sample_prj());
    assert!(indexed_draws(&calls).is_empty());
    assert_eq!(calls.len(), 3);
}

#[test]
fn draw_points_flips_projection_z() {
    let mut d = Drawer::new();
    d.compile_shader(1, 2);
    d.set_vtx2xyz(15, 3, 3).unwrap();
    let prj = sample_prj();
    let calls = d.draw_points(&identity_mat4(), &prj);
    let flipped = mat4_z_flip(&prj);
    assert_eq!(
        calls,
        vec![
            GlCall::UseProgram(1),
            GlCall::BindVertexArray(Some(2)),
            GlCall::Uniform3(Uniform::Color, BLACK),
            GlCall::UniformMatrix4(Uniform::ModelView, identity_mat4()),
            GlCall::UniformMatrix4(Uniform::Projection, flipped),
            GlCall::DrawArrays(Primitive::Points, 5),
            GlCall::BindVertexArray(None),
        ]
    );
    assert_eq!(f32::from_bits(flipped[10]), 1.5);
    assert_eq!(f32::from_bits(flipped[14]), -1.3);
    assert_eq!(flipped[0], prj[0]);
}

#[test]
fn set_color_changes_only_that_pass() {
    let mut d = Drawer::new();
    d.compile_shader(1, 2);
    d.add_elem2vtx(Primitive::Triangles, &[0u32, 1, 2], BLACK, 3);
    d.add_elem2vtx(Primitive::Lines, &[0u32, 1], BLACK, 4);
    let blue = rgb(0.0, 0.0, 1.0);
    d.set_color(1, &blue);
    assert_eq!(d.element_buffer(0).color, BLACK);
    assert_eq!(d.element_buffer(1).color, blue);
    assert_eq!(d.element_buffer(1).ebo, 4);
}

#[test]
fn destroy_lists_every_handle_even_replaced_ones() {
    let mut d = Drawer::default();
    d.compile_shader(1, 2);
    d.add_elem2vtx(Primitive::Triangles, &[0u32, 1, 2], BLACK, 3);
    d.set_vtx2xyz(9, 3, 4).unwrap();
    d.set_vtx2xyz(9, 3, 5).unwrap();
    assert_eq!(
        d.destroy(),
        vec![
            GlResource::Program(1),
            GlResource::VertexArray(2),
            GlResource::Buffer(3),
            GlResource::Buffer(4),
            GlResource::Buffer(5),
        ]
    );
}
