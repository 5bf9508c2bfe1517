use quad_present::vertex::{mesh_to_words, quad_mesh, vertex_buffer_contents, VERTEX_SIZE};
use quad_present::{
    pipeline_desc, BlendMode, IndexFormat, Inputs, PrimitiveTopology, Vertex, VertexFormat, VertexStepMode,
};

fn floats(v: &Vertex) -> ([f32; 2], [f32; 3]) {
    (
        [f32::from_bits(v.position[0]), f32::from_bits(v.position[1])],
        [f32::from_bits(v.color[0]), f32::from_bits(v.color[1]), f32::from_bits(v.color[2])],
    )
}

#[test]
fn quad_mesh_holds_two_triangles() {
    let mesh = quad_mesh();
    let got: Vec<([f32; 2], [f32; 3])> = mesh.iter().map(floats).collect();
    assert_eq!(
        got,
        vec![
            ([-0.5, -0.5], [1.0, 0.0, 0.0]),
            ([0.5, -0.5], [0.0, 1.0, 0.0]),
            ([-0.5, 0.5], [1.0, 1.0, 0.0]),
            ([-0.5, 0.5], [1.0, 1.0, 0.0]),
            ([0.5, -0.5], [0.0, 1.0, 0.0]),
            ([0.5, 0.5], [0.0, 0.0, 1.0]),
        ]
    );
}

#[test]
fn buffer_is_six_records_of_twenty_bytes() {
    let bytes = vertex_buffer_contents();
    assert_eq!(bytes.len(), 120);
    assert_eq!(bytes.len() as u64, 6 * VERTEX_SIZE);
    let mut expected: Vec<u8> = Vec::new();
    for v in quad_mesh() {
        let (p, c) = floats(&v);
        for x in p.iter().chain(c.iter()) {
            expected.extend_from_slice(&x.to_ne_bytes());
        }
    }
    assert_eq!(bytes, expected);
}

#[test]
fn words_follow_record_order() {
    let words = mesh_to_words(&quad_mesh());
    assert_eq!(words.len(), 30);
    assert_eq!(&words[0..5], &[0xbf00_0000, 0xbf00_0000, 0x3f80_0000, 0, 0]);
    assert_eq!(&words[25..30], &[0x3f00_0000, 0x3f00_0000, 0, 0, 0x3f80_0000]);
    assert!(mesh_to_words(&Vec::new()).is_empty());
}

#[test]
fn layout_packs_position_then_colour() {
    let layout = Vertex::desc();
    assert_eq!(layout.array_stride, 20);
    assert_eq!(layout.step_mode, VertexStepMode::Vertex);
    assert_eq!(layout.attributes.len(), 2);
    assert_eq!(layout.attributes[0].format, VertexFormat::Float32x2);
    assert_eq!(layout.attributes[0].offset, 0);
    assert_eq!(layout.attributes[0].shader_location, 0);
    assert_eq!(layout.attributes[1].format, VertexFormat::Float32x3);
    assert_eq!(layout.attributes[1].offset, 8);
    assert_eq!(layout.attributes[1].shader_location, 1);
    assert_eq!(layout.attributes[1].offset + layout.attributes[1].format.size(), layout.array_stride);
}

#[test]
fn pipeline_for_triangle_list() {
    let desc = pipeline_desc(Inputs::triangle_list(String::from("// shader"))).unwrap();
    assert_eq!(desc.inputs.source, "// shader");
    assert_eq!(desc.inputs.topology, PrimitiveTopology::TriangleList);
    assert_eq!(desc.inputs.strip_index_format, None);
    assert_eq!(desc.vertex_entry, "vs_main");
    assert_eq!(desc.fragment_entry, "fs_main");
    assert_eq!(desc.blend, BlendMode::Replace);
    assert!(desc.write_all_channels);
    assert!(!desc.depth_stencil);
    assert_eq!(desc.sample_count, 1);
    assert_eq!(desc.layout.array_stride, 20);
}

#[test]
fn strip_index_on_list_topology_is_refused() {
    let bad = Inputs {
        source: String::new(),
        topology: PrimitiveTopology::TriangleList,
        strip_index_format: Some(IndexFormat::Uint16),
    };
    assert!(!bad.is_consistent());
    assert!(pipeline_desc(bad).is_none());
    let strip = Inputs {
        source: String::new(),
        topology: PrimitiveTopology::TriangleStrip,
        strip_index_format: Some(IndexFormat::Uint32),
    };
    assert!(pipeline_desc(strip).is_some());
}
