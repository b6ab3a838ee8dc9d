use ferrous_gl::BufferLane;
use ferrous_gl::BufferUsageHint;
use ferrous_gl::DriverCall;
use ferrous_gl::Mesh;
use ferrous_gl::MeshConfig;
use ferrous_gl::MeshError;
use ferrous_gl::PrimitveType;
use ferrous_gl::ShaderDataType;
use ferrous_gl::VertexAttribute;

fn bits(x: f32) -> u32 {
    x.to_bits()
}

fn triangle_config(vertex_lanes: usize, stride: i32) -> MeshConfig {
    MeshConfig {
        vertices: vec![0u32; vertex_lanes],
        indices: None,
        attributes: vec![VertexAttribute::new(0, 3, stride, 0)],
        buffer_usage_hint: BufferUsageHint::StaticDraw,
        primitive_type: PrimitveType::Triangle,
    }
}

#[test]
fn vertex_count_is_lane_count_divided_by_max_stride() {
    let mut mesh = Mesh::empty();
    let calls = mesh.new(&triangle_config(12, 3)).unwrap();
    assert_eq!(mesh.vertex_count(), 4);
    assert_eq!(mesh.index_count(), 0);
    assert_eq!(mesh.instance_count(), 0);
    assert!(calls.contains(&DriverCall::UploadVertexData {
        len: 12,
        usage: BufferUsageHint::StaticDraw,
    }));
}

#[test]
fn vertex_count_uses_the_maximum_stride_across_attributes() {
    // Position (3 components) and color (2 components) share one buffer:
    // the true per-vertex stride is the maximum, 5.
    let mut mesh = Mesh::empty();
    let config = MeshConfig {
        vertices: vec![0u32; 20],
        indices: None,
        attributes: vec![
            VertexAttribute::new(0, 3, 5, 0),
            VertexAttribute::new(1, 2, 2, 3),
        ],
        buffer_usage_hint: BufferUsageHint::StaticDraw,
        primitive_type: PrimitveType::Triangle,
    };
    let calls = mesh.new(&config).unwrap();
    assert_eq!(mesh.vertex_count(), 4);
    // Every attribute is bound with the maximum stride, not its own.
    assert!(calls.contains(&DriverCall::BindAttribute {
        attribute: VertexAttribute::new(1, 2, 5, 3),
        divisor: 0,
    }));
}

#[test]
fn empty_attribute_list_means_tightly_packed_stride_one() {
    let mut mesh = Mesh::empty();
    let config = MeshConfig {
        vertices: vec![0u32; 7],
        indices: None,
        attributes: vec![],
        buffer_usage_hint: BufferUsageHint::StaticDraw,
        primitive_type: PrimitveType::Point,
    };
    mesh.new(&config).unwrap();
    assert_eq!(mesh.vertex_count(), 7);
}

#[test]
fn initializing_twice_is_refused() {
    let mut mesh = Mesh::empty();
    mesh.new(&triangle_config(9, 3)).unwrap();
    assert_eq!(
        mesh.new(&triangle_config(9, 3)),
        Err(MeshError::AlreadyInitialized)
    );
    // The first initialization survives untouched.
    assert_eq!(mesh.vertex_count(), 3);
}

#[test]
fn non_positive_stride_is_refused() {
    let mut mesh = Mesh::empty();
    let config = MeshConfig {
        vertices: vec![0u32; 6],
        indices: None,
        attributes: vec![VertexAttribute::new(0, 3, 0, 0)],
        buffer_usage_hint: BufferUsageHint::StaticDraw,
        primitive_type: PrimitveType::Triangle,
    };
    assert_eq!(mesh.new(&config), Err(MeshError::InvalidStride));
    assert!(!mesh.is_initialized());
}

#[test]
fn indexed_mesh_uploads_and_counts_indices() {
    let mut mesh = Mesh::empty();
    let config = MeshConfig {
        vertices: vec![0u32; 12],
        indices: Some(vec![0, 1, 2, 2, 3, 0]),
        attributes: vec![VertexAttribute::new(0, 3, 3, 0)],
        buffer_usage_hint: BufferUsageHint::DynamicDraw,
        primitive_type: PrimitveType::Triangle,
    };
    let calls = mesh.new(&config).unwrap();
    assert_eq!(mesh.index_count(), 6);
    assert!(calls.contains(&DriverCall::CreateIndexBuffer));
    assert!(calls.contains(&DriverCall::UploadIndexData {
        len: 6,
        usage: BufferUsageHint::DynamicDraw,
    }));
}

#[test]
fn draw_plain_mesh_issues_one_draw_arrays() {
    let mut mesh = Mesh::empty();
    mesh.new(&triangle_config(9, 3)).unwrap();
    assert_eq!(
        mesh.draw(),
        vec![
            DriverCall::BindVertexArray,
            DriverCall::DrawArrays { topology: PrimitveType::Triangle, vertex_count: 3 },
            DriverCall::UnbindVertexArray,
        ]
    );
}

#[test]
fn draw_indexed_mesh_issues_one_draw_elements_with_index_count() {
    let mut mesh = Mesh::empty();
    let config = MeshConfig {
        vertices: vec![0u32; 12],
        indices: Some(vec![0, 1, 2, 2, 3, 0]),
        attributes: vec![VertexAttribute::new(0, 3, 3, 0)],
        buffer_usage_hint: BufferUsageHint::StaticDraw,
        primitive_type: PrimitveType::TriangleStrip,
    };
    mesh.new(&config).unwrap();
    assert_eq!(
        mesh.draw(),
        vec![
            DriverCall::BindVertexArray,
            DriverCall::DrawElements { topology: PrimitveType::TriangleStrip, index_count: 6 },
            DriverCall::UnbindVertexArray,
        ]
    );
}

#[test]
fn draw_instanced_mesh_issues_one_instanced_call() {
    let mut mesh = Mesh::empty();
    mesh.new(&triangle_config(9, 3)).unwrap();
    let data = vec![
        vec![ShaderDataType::Float(bits(0.0))],
        vec![ShaderDataType::Float(bits(1.0))],
    ];
    mesh.set_instance_attributes(&data, 1).unwrap();
    assert_eq!(mesh.instance_count(), 2);
    assert_eq!(
        mesh.draw(),
        vec![
            DriverCall::BindVertexArray,
            DriverCall::DrawArraysInstanced {
                topology: PrimitveType::Triangle,
                vertex_count: 3,
                instance_count: 2,
            },
            DriverCall::UnbindVertexArray,
        ]
    );
}

#[test]
fn draw_indexed_instanced_mesh_issues_one_indexed_instanced_call() {
    let mut mesh = Mesh::empty();
    let config = MeshConfig {
        vertices: vec![0u32; 12],
        indices: Some(vec![0, 1, 2]),
        attributes: vec![VertexAttribute::new(0, 3, 3, 0)],
        buffer_usage_hint: BufferUsageHint::StaticDraw,
        primitive_type: PrimitveType::Triangle,
    };
    mesh.new(&config).unwrap();
    let data = vec![vec![ShaderDataType::Float(bits(2.0))]];
    mesh.set_instance_attributes(&data, 1).unwrap();
    assert_eq!(
        mesh.draw(),
        vec![
            DriverCall::BindVertexArray,
            DriverCall::DrawElementsInstanced {
                topology: PrimitveType::Triangle,
                index_count: 3,
                instance_count: 1,
            },
            DriverCall::UnbindVertexArray,
        ]
    );
}

#[test]
fn instance_round_trip_vec3_mat4_float_packs_twenty_lanes() {
    let identity: [u32; 16] = [
        bits(1.0), bits(0.0), bits(0.0), bits(0.0),
        bits(0.0), bits(1.0), bits(0.0), bits(0.0),
        bits(0.0), bits(0.0), bits(1.0), bits(0.0),
        bits(0.0), bits(0.0), bits(0.0), bits(1.0),
    ];
    let instance = vec![
        ShaderDataType::Vec3(bits(1.0), bits(2.0), bits(3.0)),
        ShaderDataType::Mat4(identity),
        ShaderDataType::Float(bits(0.5)),
    ];
    let n = 3usize;
    let data = vec![instance.clone(), instance.clone(), instance.clone()];

    let mut mesh = Mesh::empty();
    mesh.new(&triangle_config(9, 3)).unwrap();
    let start = 4u32;
    let up = mesh.set_instance_attributes(&data, start).unwrap();

    // N instances of shape [Vec3, Mat4, Float]: N * (3 + 16 + 1) lanes.
    assert_eq!(up.data.len(), n * 20);
    assert_eq!(mesh.instance_count(), n as i32);

    // The first instance's lanes, in packed order, matrix column-major.
    let mut expected = vec![
        BufferLane::Float(bits(1.0)),
        BufferLane::Float(bits(2.0)),
        BufferLane::Float(bits(3.0)),
    ];
    for c in identity.iter() {
        expected.push(BufferLane::Float(*c));
    }
    expected.push(BufferLane::Float(bits(0.5)));
    assert_eq!(&up.data[0..20], &expected[..]);
    assert_eq!(&up.data[20..40], &expected[..]);

    // Exact slots, offsets and strides: the vector at `start`, the four
    // matrix columns at the next four slots, the scalar after them.
    let expected_attrs = vec![
        VertexAttribute::new(start, 3, 20, 0),
        VertexAttribute::new(start + 1, 4, 20, 3),
        VertexAttribute::new(start + 2, 4, 20, 7),
        VertexAttribute::new(start + 3, 4, 20, 11),
        VertexAttribute::new(start + 4, 4, 20, 15),
        VertexAttribute::new(start + 5, 1, 20, 19),
    ];
    let mut expected_calls = vec![
        DriverCall::BindVertexArray,
        DriverCall::CreateInstanceBuffer,
        DriverCall::UploadInstanceData { len: n * 20 },
    ];
    for a in expected_attrs.iter() {
        expected_calls.push(DriverCall::BindAttribute { attribute: *a, divisor: 1 });
    }
    expected_calls.push(DriverCall::UnbindVertexArray);
    assert_eq!(up.calls, expected_calls);
}

#[test]
fn instance_layout_covers_every_value_shape() {
    let m3: [u32; 9] = [bits(1.0); 9];
    let instance = vec![
        ShaderDataType::Int(7),
        ShaderDataType::Vec2(bits(1.0), bits(2.0)),
        ShaderDataType::Vec4(bits(1.0), bits(2.0), bits(3.0), bits(4.0)),
        ShaderDataType::Mat3(m3),
    ];
    let data = vec![instance];
    let mut mesh = Mesh::empty();
    mesh.new(&triangle_config(3, 3)).unwrap();
    let up = mesh.set_instance_attributes(&data, 0).unwrap();

    // 1 + 2 + 4 + 9 lanes; the integer lane keeps its integer value.
    assert_eq!(up.data.len(), 16);
    assert_eq!(up.data[0], BufferLane::Int(7));

    let binds: Vec<VertexAttribute> = up
        .calls
        .iter()
        .filter_map(|c| match c {
            DriverCall::BindAttribute { attribute, divisor: 1 } => Some(*attribute),
            _ => None,
        })
        .collect();
    assert_eq!(
        binds,
        vec![
            VertexAttribute::new(0, 1, 16, 0),
            VertexAttribute::new(1, 2, 16, 1),
            VertexAttribute::new(2, 4, 16, 3),
            VertexAttribute::new(3, 3, 16, 7),
            VertexAttribute::new(4, 3, 16, 10),
            VertexAttribute::new(5, 3, 16, 13),
        ]
    );
}

#[test]
fn replacing_instance_data_of_the_same_size_updates_in_place() {
    let mut mesh = Mesh::empty();
    mesh.new(&triangle_config(3, 3)).unwrap();
    let first = vec![vec![ShaderDataType::Float(bits(1.0))]];
    let up1 = mesh.set_instance_attributes(&first, 1).unwrap();
    assert!(up1.calls.contains(&DriverCall::CreateInstanceBuffer));
    assert!(up1.calls.contains(&DriverCall::UploadInstanceData { len: 1 }));

    let second = vec![vec![ShaderDataType::Float(bits(2.0))]];
    let up2 = mesh.set_instance_attributes(&second, 1).unwrap();
    assert!(!up2.calls.contains(&DriverCall::CreateInstanceBuffer));
    assert!(up2.calls.contains(&DriverCall::UpdateInstanceData { len: 1 }));
}

#[test]
fn replacing_instance_data_with_a_different_size_is_refused() {
    let mut mesh = Mesh::empty();
    mesh.new(&triangle_config(3, 3)).unwrap();
    let first = vec![vec![ShaderDataType::Float(bits(1.0))]];
    mesh.set_instance_attributes(&first, 1).unwrap();
    let bigger = vec![
        vec![ShaderDataType::Float(bits(1.0))],
        vec![ShaderDataType::Float(bits(2.0))],
    ];
    assert_eq!(
        mesh.set_instance_attributes(&bigger, 1),
        Err(MeshError::SizeMismatch)
    );
    assert_eq!(mesh.instance_count(), 1);
}

#[test]
fn instance_data_before_initialization_is_refused() {
    let mut mesh = Mesh::empty();
    let data = vec![vec![ShaderDataType::Float(bits(1.0))]];
    assert_eq!(
        mesh.set_instance_attributes(&data, 0),
        Err(MeshError::NotInitialized)
    );
}

#[test]
fn empty_instance_sequence_is_refused() {
    let mut mesh = Mesh::empty();
    mesh.new(&triangle_config(3, 3)).unwrap();
    let data: Vec<Vec<ShaderDataType>> = vec![];
    assert_eq!(
        mesh.set_instance_attributes(&data, 0),
        Err(MeshError::NoInstances)
    );
}

#[test]
fn mismatched_instance_shapes_are_refused() {
    let mut mesh = Mesh::empty();
    mesh.new(&triangle_config(3, 3)).unwrap();
    let data = vec![
        vec![ShaderDataType::Float(bits(1.0))],
        vec![ShaderDataType::Vec2(bits(1.0), bits(2.0))],
    ];
    assert_eq!(
        mesh.set_instance_attributes(&data, 0),
        Err(MeshError::ShapeMismatch)
    );
}

#[test]
fn drawing_an_uninitialized_mesh_is_a_silent_no_op() {
    let mesh = Mesh::empty();
    assert_eq!(mesh.draw(), Vec::<DriverCall>::new());
}

#[test]
fn destroying_a_never_initialized_mesh_performs_zero_driver_calls() {
    let mut mesh = Mesh::empty();
    assert_eq!(mesh.release(), Vec::<DriverCall>::new());
}

#[test]
fn release_deletes_every_owned_object_exactly_once() {
    let mut mesh = Mesh::empty();
    let config = MeshConfig {
        vertices: vec![0u32; 12],
        indices: Some(vec![0, 1, 2]),
        attributes: vec![VertexAttribute::new(0, 3, 3, 0)],
        buffer_usage_hint: BufferUsageHint::StaticDraw,
        primitive_type: PrimitveType::Triangle,
    };
    mesh.new(&config).unwrap();
    let data = vec![vec![ShaderDataType::Float(bits(1.0))]];
    mesh.set_instance_attributes(&data, 1).unwrap();

    let calls = mesh.release();
    assert_eq!(
        calls,
        vec![
            DriverCall::DeleteVertexArray,
            DriverCall::DeleteVertexBuffer,
            DriverCall::DeleteIndexBuffer,
            DriverCall::DeleteInstanceBuffer,
        ]
    );
    // Releasing again is a no-op: every handle was released exactly once.
    assert_eq!(mesh.release(), Vec::<DriverCall>::new());
}

#[test]
fn new_with_indices_defaults_to_static_triangles() {
    let mut mesh = Mesh::empty();
    let calls = mesh
        .new_with_indices(
            &vec![0u32; 9],
            &vec![0, 1, 2],
            &vec![VertexAttribute::new(0, 3, 3, 0)],
        )
        .unwrap();
    assert_eq!(mesh.vertex_count(), 3);
    assert_eq!(mesh.index_count(), 3);
    assert!(calls.contains(&DriverCall::UploadIndexData {
        len: 3,
        usage: BufferUsageHint::StaticDraw,
    }));
}

#[test]
fn mesh_config_default_is_an_empty_static_triangle_mesh() {
    let config = MeshConfig::default();
    assert!(config.vertices.is_empty());
    assert!(config.indices.is_none());
    assert!(config.attributes.is_empty());
    assert_eq!(config.buffer_usage_hint, BufferUsageHint::StaticDraw);
    assert_eq!(config.primitive_type, PrimitveType::Triangle);
}
