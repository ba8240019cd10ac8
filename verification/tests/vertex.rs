use wgpu_kit::vertex::{
    index_data, packed_layout, Attribute, AttributeFormat, IndexData, VertexLayout,
};

fn attribute(format: AttributeFormat, offset: u64, shader_location: u32) -> Attribute {
    Attribute { format, offset, shader_location }
}

#[test]
fn layout_of_position_and_colour() {
    let layout = packed_layout(&[(0, AttributeFormat::Float32x3), (1, AttributeFormat::Float32x3)]);
    assert_eq!(
        layout,
        VertexLayout {
            array_stride: 24,
            attributes: vec![
                attribute(AttributeFormat::Float32x3, 0, 0),
                attribute(AttributeFormat::Float32x3, 12, 1),
            ],
        }
    );
}

#[test]
fn layout_of_position_and_texture_coordinates() {
    let layout = packed_layout(&[(0, AttributeFormat::Float32x3), (1, AttributeFormat::Float32x2)]);
    assert_eq!(layout.array_stride, 20);
    assert_eq!(layout.attributes[1], attribute(AttributeFormat::Float32x2, 12, 1));
}

#[test]
fn layout_of_a_mesh_vertex() {
    let layout = packed_layout(&[
        (0, AttributeFormat::Float32x3),
        (1, AttributeFormat::Float32x3),
        (2, AttributeFormat::Float32x2),
    ]);
    assert_eq!(layout.array_stride, 32);
    let offsets: Vec<u64> = layout.attributes.iter().map(|a| a.offset).collect();
    assert_eq!(offsets, vec![0, 12, 24]);
    let locations: Vec<u32> = layout.attributes.iter().map(|a| a.shader_location).collect();
    assert_eq!(locations, vec![0, 1, 2]);
}

#[test]
fn layout_keeps_the_locations_it_is_given() {
    let layout = packed_layout(&[(5, AttributeFormat::Float32), (2, AttributeFormat::Float32x4)]);
    assert_eq!(
        layout.attributes,
        vec![attribute(AttributeFormat::Float32, 0, 5), attribute(AttributeFormat::Float32x4, 4, 2)]
    );
    assert_eq!(layout.array_stride, 20);
}

#[test]
fn layout_of_no_attributes() {
    assert_eq!(packed_layout(&[]), VertexLayout { array_stride: 0, attributes: vec![] });
}

#[test]
fn attributes_follow_each_other_without_gaps() {
    let formats = [
        AttributeFormat::Float32x4,
        AttributeFormat::Float32,
        AttributeFormat::Float32x2,
        AttributeFormat::Float32x3,
        AttributeFormat::Float32,
    ];
    let slots: Vec<(u32, AttributeFormat)> =
        formats.iter().enumerate().map(|(i, f)| (i as u32, *f)).collect();
    let layout = packed_layout(&slots);
    let sizes = [16u64, 4, 8, 12, 4];
    let mut end = 0;
    for (attribute, size) in layout.attributes.iter().zip(sizes) {
        assert_eq!(attribute.offset, end);
        end += size;
    }
    assert_eq!(layout.array_stride, end);
}

#[test]
fn sizes_are_those_of_wgpu() {
    let pairs = [
        (AttributeFormat::Float32, wgpu::VertexFormat::Float32),
        (AttributeFormat::Float32x2, wgpu::VertexFormat::Float32x2),
        (AttributeFormat::Float32x3, wgpu::VertexFormat::Float32x3),
        (AttributeFormat::Float32x4, wgpu::VertexFormat::Float32x4),
    ];
    for (format, wgpu_format) in pairs {
        assert_eq!(packed_layout(&[(0, format)]).array_stride, wgpu_format.size());
    }
    assert_eq!(packed_layout(&[(0, AttributeFormat::Float32)]).array_stride, 4);
    assert_eq!(packed_layout(&[(0, AttributeFormat::Float32x2)]).array_stride, 8);
    assert_eq!(packed_layout(&[(0, AttributeFormat::Float32x3)]).array_stride, 12);
    assert_eq!(packed_layout(&[(0, AttributeFormat::Float32x4)]).array_stride, 16);
}

#[test]
fn index_data_of_a_quad() {
    let indices = [0u16, 1, 2, 0, 2, 3];
    let data = index_data(&indices).unwrap();
    assert_eq!(data.count, 6);
    let mut expected = Vec::new();
    for index in indices {
        expected.extend_from_slice(&index.to_ne_bytes());
    }
    assert_eq!(data.bytes, expected);
}

#[test]
fn index_bytes_are_in_one_byte_order() {
    let indices = [1u16, 258, 0xfffe];
    let data = index_data(&indices).unwrap();
    let little = vec![1, 0, 2, 1, 0xfe, 0xff];
    let big = vec![0, 1, 1, 2, 0xff, 0xfe];
    assert!(data.bytes == little || data.bytes == big);
}

#[test]
fn index_data_of_nothing() {
    assert_eq!(index_data(&[]), Some(IndexData { bytes: vec![], count: 0 }));
}
