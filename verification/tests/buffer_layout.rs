use gl_pong::buffer::{
    AttributeKind, BufferElement, BufferLayout, BufferLayoutBuilder, ShaderDataType,
    VertexAttribute,
};

#[test]
fn renderer_layout_builder() {
    let buffer_layout = BufferLayoutBuilder::new()
        .element(BufferElement::new(ShaderDataType::Float2, "position", false))
        .element(BufferElement::new(ShaderDataType::Float3, "color", false))
        .build();

    assert_eq!(20, buffer_layout.stride());
    assert_eq!(2, buffer_layout.elements().len());
}

#[test]
fn buffer_layout_builder() {
    let buffer_layout = BufferLayoutBuilder::new()
        .element(BufferElement::new(ShaderDataType::Float2, "position", false))
        .element(BufferElement::new(ShaderDataType::Float3, "color", false))
        .build();

    assert_eq!(20, buffer_layout.stride());
    assert_eq!(2, buffer_layout.elements().len());
}

#[test]
fn offsets_are_running_sums_of_sizes() {
    let layout = BufferLayoutBuilder::new()
        .element(BufferElement::new(ShaderDataType::Float2, "position", false))
        .element(BufferElement::new(ShaderDataType::Float3, "color", true))
        .build();
    let elements = layout.elements();
    assert_eq!(elements[0].offset(), 0);
    assert_eq!(elements[1].offset(), 8);
    assert_eq!(elements[0].size(), 8);
    assert_eq!(elements[1].size(), 12);
    assert_eq!(elements[0].name(), "position");
    assert_eq!(elements[1].name(), "color");
    assert_eq!(elements[0].dtype(), ShaderDataType::Float2);
    assert!(!elements[0].normalized());
    assert!(elements[1].normalized());
}

#[test]
fn empty_layout_has_no_stride() {
    let layout = BufferLayoutBuilder::new().build();
    assert_eq!(layout.stride(), 0);
    assert_eq!(layout.elements().len(), 0);
}

#[test]
fn every_type_has_its_size() {
    let sizes = [
        (ShaderDataType::Unknown, 0),
        (ShaderDataType::Float, 4),
        (ShaderDataType::Float2, 8),
        (ShaderDataType::Float3, 12),
        (ShaderDataType::Float4, 16),
        (ShaderDataType::Mat3, 36),
        (ShaderDataType::Mat4, 64),
        (ShaderDataType::Int, 4),
        (ShaderDataType::Int2, 8),
        (ShaderDataType::Int3, 12),
        (ShaderDataType::Int4, 16),
        (ShaderDataType::Bool, 0),
    ];
    for (dtype, size) in sizes {
        assert_eq!(dtype.size(), size);
    }
}

#[test]
fn base_types_are_the_device_enumerants() {
    assert_eq!(ShaderDataType::Float.gl_base_type(), 0x1406);
    assert_eq!(ShaderDataType::Float4.gl_base_type(), 0x1406);
    assert_eq!(ShaderDataType::Mat3.gl_base_type(), 0x1406);
    assert_eq!(ShaderDataType::Mat4.gl_base_type(), 0x1406);
    assert_eq!(ShaderDataType::Int.gl_base_type(), 0x1404);
    assert_eq!(ShaderDataType::Int3.gl_base_type(), 0x1404);
    assert_eq!(ShaderDataType::Bool.gl_base_type(), 0x8B56);
}

#[test]
fn component_counts() {
    let count = |dtype| BufferElement::new(dtype, "a", false).get_component_count();
    assert_eq!(count(ShaderDataType::Float), 1);
    assert_eq!(count(ShaderDataType::Int), 1);
    assert_eq!(count(ShaderDataType::Bool), 1);
    assert_eq!(count(ShaderDataType::Float2), 2);
    assert_eq!(count(ShaderDataType::Int2), 2);
    assert_eq!(count(ShaderDataType::Float3), 3);
    assert_eq!(count(ShaderDataType::Int3), 3);
    assert_eq!(count(ShaderDataType::Mat3), 3);
    assert_eq!(count(ShaderDataType::Float4), 4);
    assert_eq!(count(ShaderDataType::Int4), 4);
    assert_eq!(count(ShaderDataType::Mat4), 4);
}

#[test]
fn vector_and_integer_elements_take_one_slot_each() {
    let layout = BufferLayoutBuilder::new()
        .element(BufferElement::new(ShaderDataType::Float3, "a_Position", true))
        .element(BufferElement::new(ShaderDataType::Int2, "a_Cell", true))
        .build();
    let attributes = layout.vertex_attributes(3);
    assert_eq!(
        attributes,
        vec![
            VertexAttribute {
                index: 3,
                kind: AttributeKind::Float,
                component_count: 3,
                base_type: 0x1406,
                normalized: true,
                stride: 20,
                offset: 0,
                divisor: None,
            },
            VertexAttribute {
                index: 4,
                kind: AttributeKind::Integer,
                component_count: 2,
                base_type: 0x1404,
                normalized: false,
                stride: 20,
                offset: 12,
                divisor: None,
            },
        ]
    );
}

#[test]
fn a_matrix_takes_one_slot_per_column() {
    let layout = BufferLayoutBuilder::new()
        .element(BufferElement::new(ShaderDataType::Float, "a_Scale", false))
        .element(BufferElement::new(ShaderDataType::Mat3, "a_Transform", false))
        .element(BufferElement::new(ShaderDataType::Mat4, "a_Model", false))
        .build();
    assert_eq!(layout.stride(), 4 + 36 + 64);
    let attributes = layout.vertex_attributes(0);
    assert_eq!(attributes.len(), 1 + 3 + 4);
    let indices: Vec<u32> = attributes.iter().map(|a| a.index).collect();
    assert_eq!(indices, vec![0, 1, 2, 3, 4, 5, 6, 7]);
    let offsets: Vec<i32> = attributes.iter().map(|a| a.offset).collect();
    assert_eq!(offsets, vec![0, 4, 16, 28, 40, 56, 72, 88]);
    let counts: Vec<i32> = attributes.iter().map(|a| a.component_count).collect();
    assert_eq!(counts, vec![1, 3, 3, 3, 4, 4, 4, 4]);
    assert_eq!(attributes[0].divisor, None);
    for attribute in &attributes[1..] {
        assert_eq!(attribute.divisor, Some(1));
        assert_eq!(attribute.kind, AttributeKind::Float);
        assert_eq!(attribute.stride, 104);
    }
}

#[test]
fn slot_counts() {
    assert_eq!(BufferElement::new(ShaderDataType::Float2, "a", false).slot_count(), 1);
    assert_eq!(BufferElement::new(ShaderDataType::Mat3, "a", false).slot_count(), 3);
    assert_eq!(BufferElement::new(ShaderDataType::Mat4, "a", false).slot_count(), 4);
    assert_eq!(BufferElement::new(ShaderDataType::Unknown, "a", false).slot_count(), 0);
}

#[test]
fn defaults_are_empty() {
    assert_eq!(ShaderDataType::default(), ShaderDataType::Unknown);
    let element = BufferElement::default();
    assert_eq!(element.name(), "");
    assert_eq!(element.dtype(), ShaderDataType::Unknown);
    assert_eq!(element.size(), 0);
    assert_eq!(element.offset(), 0);
    assert!(!element.normalized());
    let layout = BufferLayout::default();
    assert_eq!(layout.stride(), 0);
    assert!(layout.elements().is_empty());
}

#[test]
fn elements_can_be_walked_by_index() {
    let layout = BufferLayoutBuilder::new()
        .element(BufferElement::new(ShaderDataType::Float2, "position", false))
        .element(BufferElement::new(ShaderDataType::Float3, "color", false))
        .build();
    let mut names = Vec::new();
    let mut index = 0;
    while let Some(element) = layout.element_at(index) {
        names.push(element.name().to_string());
        index += 1;
    }
    assert_eq!(names, vec!["position", "color"]);
    assert!(layout.element_at(2).is_none());
    assert!(layout.element_at(usize::MAX).is_none());
}
