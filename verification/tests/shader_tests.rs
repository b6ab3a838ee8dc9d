use ferrous_gl::shader::BuildPhase;
use ferrous_gl::shader::Shader;
use ferrous_gl::shader::ShaderBuilder;
use ferrous_gl::shader::ShaderError;
use ferrous_gl::shader::UniformOutcome;
use ferrous_gl::DriverCall;
use ferrous_gl::ShaderDataType;
use ferrous_gl::StageKind;

fn bits(x: f32) -> u32 {
    x.to_bits()
}

#[test]
fn binding_an_empty_shader_is_a_usage_error() {
    let shader = Shader::empty();
    assert!(!shader.is_linked());
    assert_eq!(shader.bind(), Err(ShaderError::NotLinked));
}

#[test]
fn destroying_a_never_linked_shader_performs_zero_driver_calls() {
    let mut shader = Shader::empty();
    assert_eq!(shader.release(), Vec::<DriverCall>::new());
}

#[test]
fn two_stage_build_compiles_attaches_links_and_releases_stages() {
    let stages = vec![
        (StageKind::Vertex, String::from("vertex source")),
        (StageKind::Fragment, String::from("fragment source")),
    ];
    let (mut builder, calls) = ShaderBuilder::new(stages);
    assert_eq!(
        calls,
        vec![
            DriverCall::CreateProgram,
            DriverCall::CreateStage { index: 0, kind: StageKind::Vertex },
            DriverCall::CompileStage { index: 0 },
        ]
    );
    assert_eq!(builder.stage_count(), 2);
    assert_eq!(builder.stage_kind(1), StageKind::Fragment);
    assert_eq!(builder.stage_source(0).as_str(), "vertex source");

    let (calls, err) = builder.stage_compiled(true, String::new());
    assert_eq!(err, None);
    assert_eq!(
        calls,
        vec![
            DriverCall::AttachStage { index: 0 },
            DriverCall::CreateStage { index: 1, kind: StageKind::Fragment },
            DriverCall::CompileStage { index: 1 },
        ]
    );

    let (calls, err) = builder.stage_compiled(true, String::new());
    assert_eq!(err, None);
    assert_eq!(
        calls,
        vec![DriverCall::AttachStage { index: 1 }, DriverCall::LinkProgram]
    );
    assert_eq!(builder.phase(), BuildPhase::Linking);

    let (calls, outcome) = builder.link_outcome(true, String::new());
    // Transient stage objects are released even though linking worked.
    assert_eq!(
        calls,
        vec![DriverCall::DeleteStage { index: 0 }, DriverCall::DeleteStage { index: 1 }]
    );
    let shader = outcome.unwrap();
    assert!(shader.is_linked());
    assert_eq!(shader.bind(), Ok(DriverCall::UseProgram));
    assert_eq!(builder.phase(), BuildPhase::Done);
}

#[test]
fn compile_failure_releases_created_stages_and_carries_the_log() {
    let stages = vec![
        (StageKind::Vertex, String::from("vs")),
        (StageKind::Geometry, String::from("gs")),
        (StageKind::Fragment, String::from("fs")),
    ];
    let (mut builder, _) = ShaderBuilder::new(stages);
    let (_, err) = builder.stage_compiled(true, String::new());
    assert_eq!(err, None);

    let (calls, err) = builder.stage_compiled(false, String::from("syntax error at line 3"));
    assert_eq!(
        err,
        Some(ShaderError::Compile(String::from("syntax error at line 3")))
    );
    // Both created stage objects and the program object are released;
    // the third stage was never created, so it is not touched.
    assert_eq!(
        calls,
        vec![
            DriverCall::DeleteStage { index: 0 },
            DriverCall::DeleteStage { index: 1 },
            DriverCall::DeleteProgram,
        ]
    );
    assert_eq!(builder.phase(), BuildPhase::Done);
}

#[test]
fn link_failure_releases_everything_and_carries_the_log() {
    let stages = vec![(StageKind::Compute, String::from("cs"))];
    let (mut builder, _) = ShaderBuilder::new(stages);
    let (calls, err) = builder.stage_compiled(true, String::new());
    assert_eq!(err, None);
    assert_eq!(
        calls,
        vec![DriverCall::AttachStage { index: 0 }, DriverCall::LinkProgram]
    );

    let (calls, outcome) = builder.link_outcome(false, String::from("link failed"));
    assert_eq!(
        calls,
        vec![DriverCall::DeleteStage { index: 0 }, DriverCall::DeleteProgram]
    );
    match outcome {
        Err(e) => assert_eq!(e, ShaderError::Link(String::from("link failed"))),
        Ok(_) => panic!("link failure must not hand out a shader"),
    }
}

#[test]
fn destroying_a_linked_shader_releases_the_program_once() {
    let stages = vec![(StageKind::Compute, String::from("cs"))];
    let (mut builder, _) = ShaderBuilder::new(stages);
    builder.stage_compiled(true, String::new());
    let (_, outcome) = builder.link_outcome(true, String::new());
    let mut shader = outcome.unwrap();
    assert_eq!(shader.release(), vec![DriverCall::DeleteProgram]);
    assert_eq!(shader.release(), Vec::<DriverCall>::new());
}

#[test]
fn unknown_uniform_name_asks_for_one_driver_query() {
    let shader = Shader::empty();
    let outcome = shader.set_uniform("tint", &ShaderDataType::Float(bits(0.5)));
    assert_eq!(outcome, UniformOutcome::NeedsQuery);
}

#[test]
fn uniform_location_is_queried_at_most_once_per_name() {
    let mut shader = Shader::empty();
    let value = ShaderDataType::Float(bits(0.5));

    // A call-count stub: the driver is asked only on NeedsQuery.
    let mut driver_queries = 0;
    for _ in 0..5 {
        match shader.set_uniform("tint", &value) {
            UniformOutcome::NeedsQuery => {
                driver_queries += 1;
                shader.store_uniform_location(String::from("tint"), 3);
            }
            _ => {}
        }
    }
    assert_eq!(driver_queries, 1);

    // The same holds for a name the program does not contain.
    let mut missing_queries = 0;
    for _ in 0..5 {
        match shader.set_uniform("unused", &value) {
            UniformOutcome::NeedsQuery => {
                missing_queries += 1;
                shader.store_uniform_location(String::from("unused"), -1);
            }
            outcome => assert_eq!(outcome, UniformOutcome::Skipped),
        }
    }
    assert_eq!(missing_queries, 1);
}

#[test]
fn absent_uniform_is_a_silent_no_op() {
    let mut shader = Shader::empty();
    shader.store_uniform_location(String::from("ghost_light"), -1);
    let outcome = shader.set_uniform("ghost_light", &ShaderDataType::Int(1));
    assert_eq!(outcome, UniformOutcome::Skipped);
}

#[test]
fn each_value_variant_dispatches_its_own_upload_call() {
    let mut shader = Shader::empty();
    shader.store_uniform_location(String::from("u"), 7);
    let m3 = [bits(1.0); 9];
    let m4 = [bits(2.0); 16];

    let cases = vec![
        (
            ShaderDataType::Int(-4),
            DriverCall::Uniform1i { location: 7, value: -4 },
        ),
        (
            ShaderDataType::Float(bits(0.5)),
            DriverCall::Uniform1f { location: 7, x: bits(0.5) },
        ),
        (
            ShaderDataType::Vec2(bits(1.0), bits(2.0)),
            DriverCall::Uniform2f { location: 7, x: bits(1.0), y: bits(2.0) },
        ),
        (
            ShaderDataType::Vec3(bits(1.0), bits(2.0), bits(3.0)),
            DriverCall::Uniform3f { location: 7, x: bits(1.0), y: bits(2.0), z: bits(3.0) },
        ),
        (
            ShaderDataType::Vec4(bits(1.0), bits(2.0), bits(3.0), bits(4.0)),
            DriverCall::Uniform4f {
                location: 7,
                x: bits(1.0),
                y: bits(2.0),
                z: bits(3.0),
                w: bits(4.0),
            },
        ),
        (
            ShaderDataType::Mat3(m3),
            DriverCall::UniformMatrix3fv { location: 7, columns3: m3 },
        ),
        (
            ShaderDataType::Mat4(m4),
            DriverCall::UniformMatrix4fv { location: 7, columns4: m4 },
        ),
    ];
    for (value, expected) in cases {
        assert_eq!(shader.set_uniform("u", &value), UniformOutcome::Upload(expected));
    }
}

#[test]
fn a_later_location_overrides_an_earlier_one() {
    let mut shader = Shader::empty();
    shader.store_uniform_location(String::from("u"), 2);
    shader.store_uniform_location(String::from("u"), 9);
    assert_eq!(
        shader.set_uniform("u", &ShaderDataType::Int(1)),
        UniformOutcome::Upload(DriverCall::Uniform1i { location: 9, value: 1 })
    );
}
