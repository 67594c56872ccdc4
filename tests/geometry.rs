use voxel_render::geometry::{cube_corners, cube_index_bytes, cube_indices, CubeCorner};
use voxel_render::layout::{format_size, instance_layout, packed_layout, vertex_layout, VertexAttribute, VertexFormat, VertexStepMode};

#[test]
fn cube_has_eight_distinct_corners() {
    let c = cube_corners();
    assert_eq!(c.len(), 8);
    assert_eq!(c[0], CubeCorner { x: -1, y: 1, z: 1 });
    assert_eq!(c[6], CubeCorner { x: -1, y: -1, z: -1 });
    for i in 0..8 {
        for j in 0..8 {
            if i != j {
                assert_ne!(c[i], c[j]);
            }
        }
    }
}

#[test]
fn cube_indices_name_corners() {
    let ix = cube_indices();
    assert_eq!(ix, vec![0, 1, 2, 2, 3, 0, 4, 5, 6, 6, 7, 4, 5, 2, 1, 6, 5, 1, 0, 3, 4, 0, 4, 7]);
    assert_eq!(ix.len() % 3, 0);
    assert!(ix.iter().all(|&i| i < 8));
}

#[test]
fn index_bytes_in_machine_order() {
    let bytes = cube_index_bytes();
    let expected: Vec<u8> = cube_indices().iter().flat_map(|i| i.to_ne_bytes()).collect();
    assert_eq!(bytes.len(), 48);
    assert_eq!(bytes, expected);
}

#[test]
fn vertex_layout_reads_positions() {
    let l = vertex_layout();
    assert_eq!(l.step_mode, VertexStepMode::Vertex);
    assert_eq!(l.array_stride, std::mem::size_of::<[f32; 3]>() as u64);
    assert_eq!(l.attributes, vec![VertexAttribute { offset: 0, shader_location: 0, format: VertexFormat::Float32x3 }]);
}

#[test]
fn instance_layout_reads_color_then_position() {
    let l = instance_layout();
    assert_eq!(l.step_mode, VertexStepMode::Instance);
    assert_eq!(l.array_stride, 28);
    assert_eq!(l.array_stride, (std::mem::size_of::<[f32; 4]>() + std::mem::size_of::<[f32; 3]>()) as u64);
    assert_eq!(
        l.attributes,
        vec![
            VertexAttribute { offset: 0, shader_location: 1, format: VertexFormat::Float32x4 },
            VertexAttribute { offset: 16, shader_location: 2, format: VertexFormat::Float32x3 },
        ]
    );
}

#[test]
fn packed_layout_accumulates_offsets() {
    let fields = [(3, VertexFormat::Float32x3), (4, VertexFormat::Float32x3), (5, VertexFormat::Float32x4)];
    let l = packed_layout(VertexStepMode::Vertex, &fields);
    assert_eq!(l.array_stride, 40);
    let offsets: Vec<u64> = l.attributes.iter().map(|a| a.offset).collect();
    assert_eq!(offsets, vec![0, 12, 24]);
    let empty = packed_layout(VertexStepMode::Instance, &[]);
    assert_eq!(empty.array_stride, 0);
    assert!(empty.attributes.is_empty());
    assert_eq!(format_size(VertexFormat::Float32x4), 16);
    assert_eq!(format_size(VertexFormat::Float32x3), 12);
}
