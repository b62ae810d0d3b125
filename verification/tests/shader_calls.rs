use gl_nt::glenum::{FRAGMENT_SHADER, GEOMETRY_SHADER, VERTEX_SHADER};
use gl_nt::shader::{
    compile_step, first_step, is_c_compatible, release_after_link, status_ok, BuildError,
    BuildStep,
};
use gl_nt::{GlCall, ShaderBuilder};

fn kinds(builder: &ShaderBuilder) -> Vec<(u32, String)> {
    builder.stages().into_iter().map(|s| (s.kind, s.source)).collect()
}

#[test]
fn new_builder_has_no_stages() {
    assert!(ShaderBuilder::new().stages().is_empty());
}

#[test]
fn vertex_and_fragment_are_enough() {
    let builder = ShaderBuilder::new()
        .vertex_from_source("void main() {}".to_string())
        .fragment_from_source("out vec4 c;".to_string());
    assert_eq!(
        kinds(&builder),
        vec![
            (VERTEX_SHADER, "void main() {}".to_string()),
            (FRAGMENT_SHADER, "out vec4 c;".to_string()),
        ]
    );
}

#[test]
fn stages_come_in_pipeline_order() {
    let builder = ShaderBuilder::new()
        .fragment_from_source("f".to_string())
        .geometry_from_source("g".to_string())
        .vertex_from_source("v".to_string());
    assert_eq!(
        kinds(&builder),
        vec![
            (VERTEX_SHADER, "v".to_string()),
            (GEOMETRY_SHADER, "g".to_string()),
            (FRAGMENT_SHADER, "f".to_string()),
        ]
    );
}

#[test]
fn setting_a_stage_again_replaces_it() {
    let builder = ShaderBuilder::new()
        .vertex_from_source("old".to_string())
        .vertex_from_source("new".to_string());
    assert_eq!(kinds(&builder), vec![(VERTEX_SHADER, "new".to_string())]);
}

#[test]
fn compile_sets_the_source_then_compiles() {
    assert_eq!(
        ShaderBuilder::compile_calls(5, "src".to_string()),
        vec![
            GlCall::ShaderSource { shader: 5, source: "src".to_string() },
            GlCall::CompileShader { shader: 5 },
        ]
    );
}

#[test]
fn build_attaches_links_and_releases_the_stages() {
    let builder = ShaderBuilder::new()
        .vertex_from_source("v".to_string())
        .fragment_from_source("f".to_string());
    let (shader, link, release) = builder.build(10, &vec![11, 12]);
    assert_eq!(shader.program(), 10);
    assert_eq!(
        link,
        vec![
            GlCall::AttachShader { program: 10, shader: 11 },
            GlCall::AttachShader { program: 10, shader: 12 },
            GlCall::LinkProgram { program: 10 },
        ]
    );
    assert_eq!(
        release,
        vec![GlCall::DeleteShader { shader: 11 }, GlCall::DeleteShader { shader: 12 }]
    );
    assert_eq!(shader.bind(), vec![GlCall::UseProgram { program: 10 }]);
    assert_eq!(shader.delete_calls(), vec![GlCall::DeleteProgram { program: 10 }]);
}

#[test]
fn build_without_stages_only_links() {
    let (shader, link, release) = ShaderBuilder::new().build(3, &vec![]);
    assert_eq!(shader.program(), 3);
    assert_eq!(link, vec![GlCall::LinkProgram { program: 3 }]);
    assert!(release.is_empty());
}

#[test]
fn nul_bytes_are_not_c_compatible() {
    assert!(is_c_compatible("uColor"));
    assert!(is_c_compatible(""));
    assert!(is_c_compatible("héllo"));
    assert!(!is_c_compatible("u\0Color"));
    assert!(!is_c_compatible("\0"));
    assert!(!is_c_compatible("end\0"));
}

#[test]
fn only_a_zero_status_is_a_failure() {
    assert!(!status_ok(0));
    assert!(status_ok(1));
    assert!(status_ok(-1));
}

#[test]
fn stages_are_released_only_after_a_successful_link() {
    let release = vec![GlCall::DeleteShader { shader: 11 }];
    assert_eq!(release_after_link(1, release.clone()), Some(release.clone()));
    assert_eq!(release_after_link(0, release), None);
}

fn vertex_fragment() -> Vec<gl_nt::shader::ShaderStage> {
    ShaderBuilder::new()
        .vertex_from_source("v".to_string())
        .fragment_from_source("f".to_string())
        .stages()
}

#[test]
fn build_steps_compile_each_stage_then_link() {
    let stages = vertex_fragment();
    assert_eq!(first_step(&stages), BuildStep::Compile { index: 0 });
    assert_eq!(compile_step(&stages, 0, 1), BuildStep::Compile { index: 1 });
    assert_eq!(compile_step(&stages, 1, 1), BuildStep::Link);
    assert_eq!(first_step(&vec![]), BuildStep::Link);
}

#[test]
fn build_stops_at_the_first_failing_stage() {
    let stages = vertex_fragment();
    assert_eq!(
        compile_step(&stages, 0, 0),
        BuildStep::Abort(BuildError::CompileFailed { stage: 0 })
    );
    assert_eq!(
        compile_step(&stages, 1, 0),
        BuildStep::Abort(BuildError::CompileFailed { stage: 1 })
    );
}

#[test]
fn build_refuses_a_source_with_a_nul_byte_before_compiling_it() {
    let bad_first = ShaderBuilder::new().vertex_from_source("v\0".to_string()).stages();
    assert_eq!(first_step(&bad_first), BuildStep::Abort(BuildError::NulInSource { stage: 0 }));
    let bad_second = ShaderBuilder::new()
        .vertex_from_source("v".to_string())
        .fragment_from_source("\0f".to_string())
        .stages();
    assert_eq!(first_step(&bad_second), BuildStep::Compile { index: 0 });
    assert_eq!(
        compile_step(&bad_second, 0, 1),
        BuildStep::Abort(BuildError::NulInSource { stage: 1 })
    );
}

#[test]
fn set_int_writes_the_uniform() {
    let (shader, _, _) = ShaderBuilder::new().build(4, &vec![]);
    assert_eq!(shader.set_int(7, -3), vec![GlCall::Uniform1i { location: 7, value: -3 }]);
}
