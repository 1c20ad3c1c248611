use niko::buffer::{BufferType, BufferUsage, DynamicBuffer};
use niko::error::{check_error_code, WebGLError};

#[test]
fn vertex_indices_count_up() {
    let mut buffer = DynamicBuffer::new();
    let a = buffer.push_vertex(0, 0, 0, 0);
    let b = buffer.push_vertex(1, 1, 1, 1);
    assert_eq!(a, 0);
    assert_eq!(b, 1);
}

#[test]
fn build_serializes_little_endian() {
    let mut buffer = DynamicBuffer::new();
    buffer.push_vertex(0x0403_0201, 0x0807_0605, 0x0C0B_0A09, 0x100F_0E0D);
    buffer.push_quad(0, 1, 2, 3);
    let (count, vertex_bytes, index_bytes) = buffer.build();
    assert_eq!(count, 6);
    assert_eq!(
        vertex_bytes,
        vec![1, 2, 3, 4, 5, 6, 7, 8, 9, 10, 11, 12, 13, 14, 15, 16]
    );
    assert_eq!(index_bytes, vec![0, 0, 1, 0, 2, 0, 0, 0, 2, 0, 3, 0]);
}

#[test]
fn pushed_floats_read_back_byte_for_byte() {
    // Round trip: a vertex pushed with (x, y, u, v) and read back from the
    // built buffer reproduces the same four floats exactly.
    let coords: [f32; 4] = [0.125, -1.0, 0.6, 3.5e-3];
    let mut buffer = DynamicBuffer::new();
    buffer.push_vertex(
        coords[0].to_bits(),
        coords[1].to_bits(),
        coords[2].to_bits(),
        coords[3].to_bits(),
    );
    let (_, vertex_bytes, _) = buffer.build();
    assert_eq!(vertex_bytes.len(), 16);
    for (i, expected) in coords.iter().enumerate() {
        let chunk = [
            vertex_bytes[4 * i],
            vertex_bytes[4 * i + 1],
            vertex_bytes[4 * i + 2],
            vertex_bytes[4 * i + 3],
        ];
        let read_back = f32::from_bits(u32::from_le_bytes(chunk));
        assert_eq!(read_back.to_bits(), expected.to_bits());
        assert_eq!(read_back, *expected);
    }
}

#[test]
fn quad_pushes_two_triangles() {
    let mut buffer = DynamicBuffer::new();
    for _ in 0..4 {
        buffer.push_vertex(0, 0, 0, 0);
    }
    buffer.push_quad(0, 1, 2, 3);
    buffer.push_quad(4, 5, 6, 7);
    let (count, _, index_bytes) = buffer.build();
    assert_eq!(count, 12);
    let indices: Vec<u16> = index_bytes
        .chunks(2)
        .map(|c| u16::from_le_bytes([c[0], c[1]]))
        .collect();
    assert_eq!(indices, vec![0, 1, 2, 0, 2, 3, 4, 5, 6, 4, 6, 7]);
}

#[test]
fn gl_codes_match_the_api_constants() {
    assert_eq!(BufferType::VertexBuffer.gl_code(), 0x8892);
    assert_eq!(BufferType::IndexBuffer.gl_code(), 0x8893);
    assert_eq!(BufferUsage::StaticDraw.gl_code(), 0x88E4);
    assert_eq!(BufferUsage::DynamicDraw.gl_code(), 0x88E8);
}

#[test]
fn error_codes_classify() {
    assert!(check_error_code(0).is_ok());
    assert_eq!(check_error_code(0x0500), Err(WebGLError::InvalidEnum));
    assert_eq!(check_error_code(0x0501), Err(WebGLError::InvalidValue));
    assert_eq!(check_error_code(0x0502), Err(WebGLError::InvalidOperation));
    assert_eq!(
        check_error_code(0x0506),
        Err(WebGLError::InvalidFramebufferOperation)
    );
    assert_eq!(check_error_code(0x0505), Err(WebGLError::OutOfMemory));
    assert_eq!(check_error_code(0x9242), Err(WebGLError::ContextLost));
    assert_eq!(check_error_code(0xDEAD), Err(WebGLError::Unknown));
}
