use gl_pong::vertex::{
    quad_indices, quad_vertex_positions, texture_coords, to_bytes, to_unsigned_bits,
    words_to_bytes, Color, Position, QuadVertex, TexCoord, HALF, MINUS_HALF, ONE, VERTEX_SIZE,
    ZERO,
};

#[test]
fn named_bit_patterns_are_the_numbers_they_name() {
    assert_eq!(f32::from_bits(ZERO), 0.0);
    assert_eq!(f32::from_bits(ONE), 1.0);
    assert_eq!(f32::from_bits(HALF), 0.5);
    assert_eq!(f32::from_bits(MINUS_HALF), -0.5);
}

#[test]
fn blank_vertex() {
    let v = QuadVertex::new();
    assert_eq!(v.position, Position { x: 0, y: 0, z: 0 });
    assert_eq!(v.color, Color { r: 0, g: 0, b: 0, a: 0 });
    assert_eq!(v.tex_coord, TexCoord { u: 0, v: 0 });
    assert_eq!(f32::from_bits(v.tex_index), 0.0);
    assert_eq!(f32::from_bits(v.tiling_factor), 1.0);
    assert_eq!(v.entity_id, -1);
}

#[test]
fn unit_quad_corners_run_counter_clockwise() {
    let corners = quad_vertex_positions();
    let as_numbers: Vec<(f32, f32, f32)> = corners
        .iter()
        .map(|p| (f32::from_bits(p.x), f32::from_bits(p.y), f32::from_bits(p.z)))
        .collect();
    assert_eq!(
        as_numbers,
        vec![(-0.5, -0.5, 0.0), (0.5, -0.5, 0.0), (0.5, 0.5, 0.0), (-0.5, 0.5, 0.0)]
    );
    let coords: Vec<(f32, f32)> = texture_coords()
        .iter()
        .map(|t| (f32::from_bits(t.u), f32::from_bits(t.v)))
        .collect();
    assert_eq!(coords, vec![(0.0, 0.0), (1.0, 0.0), (1.0, 1.0), (0.0, 1.0)]);
}

#[test]
fn index_pattern_repeats_per_quad() {
    assert_eq!(quad_indices(0), Vec::<u32>::new());
    assert_eq!(quad_indices(1), vec![0, 1, 2, 2, 3, 0]);
    assert_eq!(
        quad_indices(3),
        vec![0, 1, 2, 2, 3, 0, 4, 5, 6, 6, 7, 4, 8, 9, 10, 10, 11, 8]
    );
    let full = quad_indices(20);
    assert_eq!(full.len(), 120);
    assert_eq!(&full[114..], &[76, 77, 78, 78, 79, 76]);
}

#[test]
fn words_are_written_least_significant_byte_first() {
    assert_eq!(words_to_bytes(&[0x1234_5678]), vec![0x78, 0x56, 0x34, 0x12]);
    assert_eq!(words_to_bytes(&[1, 0xffff_ffff]), vec![1, 0, 0, 0, 255, 255, 255, 255]);
    assert_eq!(words_to_bytes(&[]), Vec::<u8>::new());
    assert_eq!(words_to_bytes(&[ONE]), 1.0f32.to_le_bytes().to_vec());
}

#[test]
fn signed_words_keep_their_bits() {
    assert_eq!(to_unsigned_bits(0), 0);
    assert_eq!(to_unsigned_bits(7), 7);
    assert_eq!(to_unsigned_bits(-1), 0xffff_ffff);
    assert_eq!(to_unsigned_bits(i32::MIN), 0x8000_0000);
    assert_eq!(to_unsigned_bits(i32::MAX), 0x7fff_ffff);
    assert_eq!(to_unsigned_bits(-12345), (-12345i32) as u32);
}

#[test]
fn a_vertex_is_forty_eight_bytes_in_attribute_order() {
    let v = QuadVertex {
        position: Position { x: 1.5f32.to_bits(), y: (-2.0f32).to_bits(), z: 0.25f32.to_bits() },
        color: Color {
            r: 0.1f32.to_bits(),
            g: 0.2f32.to_bits(),
            b: 0.3f32.to_bits(),
            a: 1.0f32.to_bits(),
        },
        tex_coord: TexCoord { u: 0.0f32.to_bits(), v: 1.0f32.to_bits() },
        tex_index: 3.0f32.to_bits(),
        tiling_factor: 2.0f32.to_bits(),
        entity_id: -7,
    };
    let mut expected: Vec<u8> = Vec::new();
    for number in [1.5f32, -2.0, 0.25, 0.1, 0.2, 0.3, 1.0, 0.0, 1.0, 3.0, 2.0] {
        expected.extend_from_slice(&number.to_le_bytes());
    }
    expected.extend_from_slice(&(-7i32).to_le_bytes());
    let bytes = to_bytes(&[v]);
    assert_eq!(bytes.len(), VERTEX_SIZE);
    assert_eq!(bytes, expected);

    let two = to_bytes(&[v, QuadVertex::new()]);
    assert_eq!(two.len(), 2 * VERTEX_SIZE);
    assert_eq!(&two[..48], &expected[..]);
    assert_eq!(&two[48..], &to_bytes(&[QuadVertex::new()])[..]);
    assert_eq!(to_bytes(&[]), Vec::<u8>::new());
}
