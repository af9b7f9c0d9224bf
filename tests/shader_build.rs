use del_glow::shader::{BuildFailure, BuildStep, ShaderBuild, ShaderStage};

#[test]
fn build_compiles_both_stages_then_links() {
    let mut b = ShaderBuild::new(10);
    assert_eq!(b.next_step(), BuildStep::Compile(ShaderStage::Vertex));
    assert_eq!(b.shader_compiled(11, true), Some(11));
    assert_eq!(b.next_step(), BuildStep::Compile(ShaderStage::Fragment));
    assert_eq!(b.shader_compiled(12, true), Some(12));
    assert_eq!(b.next_step(), BuildStep::Link);
    b.program_linked(true);
    assert_eq!(b.next_step(), BuildStep::Finish(10, vec![11, 12]));
}

#[test]
fn build_aborts_on_compile_failure() {
    let mut b = ShaderBuild::new(10);
    assert_eq!(b.shader_compiled(11, true), Some(11));
    assert_eq!(b.shader_compiled(12, false), None);
    assert_eq!(b.next_step(), BuildStep::Abort(BuildFailure::Compile(ShaderStage::Fragment, 12)));
}

#[test]
fn build_aborts_on_vertex_failure() {
    let mut b = ShaderBuild::new(3);
    assert_eq!(b.shader_compiled(4, false), None);
    assert_eq!(b.next_step(), BuildStep::Abort(BuildFailure::Compile(ShaderStage::Vertex, 4)));
}

#[test]
fn build_aborts_on_link_failure() {
    let mut b = ShaderBuild::new(10);
    b.shader_compiled(11, true);
    b.shader_compiled(12, true);
    b.program_linked(false);
    assert_eq!(b.next_step(), BuildStep::Abort(BuildFailure::Link));
}
