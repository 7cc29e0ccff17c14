use shapes::matrix::{Vec2, Vec3};
use shapes::model::{
    flatten_vertices, Mesh, ModelVertex, Vertex, VertexAttribute, VertexBufferLayout,
    VertexFormat, VertexStepMode, MODEL_VERTEX_BYTES,
};
use shapes::pentagon::Pentagon;
use shapes::scalar::Scalar;
use shapes::texture::TextureSource;

fn vertex(pos: [f32; 3], tex: [f32; 2]) -> ModelVertex {
    ModelVertex::from_bits(
        pos[0].to_bits(),
        pos[1].to_bits(),
        pos[2].to_bits(),
        tex[0].to_bits(),
        tex[1].to_bits(),
    )
}

fn native_bytes(words: &[u32]) -> Vec<u8> {
    let mut out: Vec<u8> = Vec::new();
    for w in words {
        out.extend_from_slice(&w.to_ne_bytes());
    }
    out
}

fn floats_of(bytes: &[u8]) -> Vec<f32> {
    bytes
        .chunks(4)
        .map(|c| f32::from_ne_bytes([c[0], c[1], c[2], c[3]]))
        .collect()
}

fn words_of(bytes: &[u8]) -> Vec<u32> {
    bytes
        .chunks(4)
        .map(|c| u32::from_ne_bytes([c[0], c[1], c[2], c[3]]))
        .collect()
}

#[test]
fn format_sizes() {
    assert_eq!(VertexFormat::Float32x2.size(), 8);
    assert_eq!(VertexFormat::Float32x3.size(), 12);
    assert_eq!(VertexFormat::Float32x4.size(), 16);
}

#[test]
fn model_vertex_layout() {
    let layout = ModelVertex::desc();
    assert_eq!(layout.array_stride, 20);
    assert_eq!(layout.array_stride, MODEL_VERTEX_BYTES);
    assert_eq!(layout.step_mode, VertexStepMode::Vertex);
    assert_eq!(
        layout.attributes,
        vec![
            VertexAttribute { format: VertexFormat::Float32x3, offset: 0, shader_location: 0 },
            VertexAttribute { format: VertexFormat::Float32x2, offset: 12, shader_location: 1 },
        ]
    );
}

#[test]
fn packed_layout_puts_each_attribute_behind_the_one_before() {
    let formats = vec![
        VertexFormat::Float32x2,
        VertexFormat::Float32x4,
        VertexFormat::Float32x3,
        VertexFormat::Float32x2,
    ];
    let layout = VertexBufferLayout::packed(VertexStepMode::Instance, 3, &formats);
    assert_eq!(layout.array_stride, 44);
    assert_eq!(layout.step_mode, VertexStepMode::Instance);
    assert_eq!(
        layout.attributes,
        vec![
            VertexAttribute { format: VertexFormat::Float32x2, offset: 0, shader_location: 3 },
            VertexAttribute { format: VertexFormat::Float32x4, offset: 8, shader_location: 4 },
            VertexAttribute { format: VertexFormat::Float32x3, offset: 24, shader_location: 5 },
            VertexAttribute { format: VertexFormat::Float32x2, offset: 36, shader_location: 6 },
        ]
    );
}

#[test]
fn packed_layout_of_nothing_is_empty() {
    let layout = VertexBufferLayout::packed(VertexStepMode::Vertex, 0, &Vec::new());
    assert_eq!(layout.array_stride, 0);
    assert!(layout.attributes.is_empty());
}

#[test]
fn from_bits_fills_position_then_texture_coordinate() {
    let v = ModelVertex::from_bits(1, 2, 3, 4, 5);
    assert_eq!(
        v.pos,
        Vec3 { x: Scalar::from_bits(1), y: Scalar::from_bits(2), z: Scalar::from_bits(3) }
    );
    assert_eq!(v.tex_coords, Vec2 { x: Scalar::from_bits(4), y: Scalar::from_bits(5) });
}

#[test]
fn flatten_gives_five_numbers_a_vertex() {
    let vs = vec![ModelVertex::from_bits(1, 2, 3, 4, 5), ModelVertex::from_bits(6, 7, 8, 9, 10)];
    assert_eq!(flatten_vertices(&vs), (1..=10u32).collect::<Vec<u32>>());
    assert_eq!(flatten_vertices(&Vec::new()), Vec::<u32>::new());
}

#[test]
fn mesh_buffers_hold_the_words_as_they_lie_in_memory() {
    let vs = vec![
        ModelVertex::from_bits(0x0102_0304, 2, 3, 4, 5),
        ModelVertex::from_bits(6, 7, 8, 9, 0xa0b0_c0d0),
    ];
    let indices: Vec<u32> = vec![0, 1, 0x0001_0203];
    let mesh = Mesh::new("pair", &vs, &indices, 2);
    assert_eq!(mesh.name, "pair");
    assert_eq!(mesh.materials, 2);
    assert_eq!(mesh.num_elements, 3);
    assert_eq!(
        mesh.vertex_buffer,
        native_bytes(&[0x0102_0304, 2, 3, 4, 5, 6, 7, 8, 9, 0xa0b0_c0d0])
    );
    assert_eq!(mesh.index_buffer, native_bytes(&[0, 1, 0x0001_0203]));
    assert_eq!(mesh.vertex_buffer.len(), 40);
    assert_eq!(mesh.index_buffer.len(), 12);
}

#[test]
fn mesh_buffers_agree_with_a_cast_of_the_floats() {
    let floats: [f32; 5] = [-0.9, 0.9, 0.0, 1.0, 0.25];
    let vs = vec![vertex([floats[0], floats[1], floats[2]], [floats[3], floats[4]])];
    let mesh = Mesh::new("one", &vs, &vec![0], 1);
    let expected: &[u8] = bytemuck::cast_slice(&floats);
    assert_eq!(mesh.vertex_buffer, expected.to_vec());
}

#[test]
fn empty_mesh_has_empty_buffers() {
    let mesh = Mesh::new("", &Vec::new(), &Vec::new(), 0);
    assert!(mesh.vertex_buffer.is_empty());
    assert!(mesh.index_buffer.is_empty());
    assert_eq!(mesh.num_elements, 0);
}

#[test]
fn pentagon_model_is_a_fan_of_five_corners() {
    let model = Pentagon::prepare_model();
    assert_eq!(model.meshes.len(), 1);
    assert_eq!(model.materials.len(), 1);
    let mesh = &model.meshes[0];
    assert_eq!(mesh.name, "pentagon");
    assert_eq!(mesh.num_elements, 9);
    assert_eq!(mesh.materials, 1);
    assert_eq!(words_of(&mesh.index_buffer), vec![0, 1, 4, 1, 2, 4, 2, 3, 4]);
    assert_eq!(mesh.vertex_buffer.len(), 5 * 20);
    #[allow(clippy::excessive_precision)]
    let expected: Vec<f32> = vec![
        -0.0868241, 0.49240386, 0.0, 0.4131759, 0.00759614,
        -0.49513406, 0.06958647, 0.0, 0.0048659444, 0.43041354,
        -0.21918549, -0.44939706, 0.0, 0.28081453, 0.949397,
        0.35966998, -0.3473291, 0.0, 0.85967, 0.84732914,
        0.44147372, 0.2347359, 0.0, 0.9414737, 0.2652641,
    ];
    assert_eq!(floats_of(&mesh.vertex_buffer), expected);
}

#[test]
fn pentagon_material_is_the_shipped_image() {
    let model = Pentagon::prepare_model();
    let material = &model.materials[0];
    assert_eq!(material.name, "happy-three.png");
    assert_eq!(material.diffuse_texture.label, "happy-three.png");
    match &material.diffuse_texture.source {
        TextureSource::Asset(file) => assert_eq!(file, "happy-tree.png"),
        TextureSource::Painted(_) => panic!("the pentagon wears a shipped image"),
    }
    assert_eq!(material.diffuse_texture.filter, None);
}
