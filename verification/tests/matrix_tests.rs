use cgmath::{Matrix4, SquareMatrix};
use shapes::matrix::{Mat4, Vec4, MATRIX_BYTES};
use shapes::scalar::Scalar;

fn from_cgmath(m: Matrix4<f32>) -> Mat4 {
    let col = |v: cgmath::Vector4<f32>| Vec4 {
        x: Scalar::from_bits(v.x.to_bits()),
        y: Scalar::from_bits(v.y.to_bits()),
        z: Scalar::from_bits(v.z.to_bits()),
        w: Scalar::from_bits(v.w.to_bits()),
    };
    Mat4 { x: col(m.x), y: col(m.y), z: col(m.z), w: col(m.w) }
}

fn counting() -> Mat4 {
    Mat4 {
        x: Vec4::from_bits(1, 2, 3, 4),
        y: Vec4::from_bits(5, 6, 7, 8),
        z: Vec4::from_bits(9, 10, 11, 12),
        w: Vec4::from_bits(13, 14, 15, 16),
    }
}

#[test]
fn identity_is_the_identity_of_cgmath() {
    assert_eq!(Mat4::identity(), from_cgmath(Matrix4::<f32>::identity()));
}

#[test]
fn depth_correction_has_the_fixed_entries() {
    let fixed: Matrix4<f32> = Matrix4::from_cols(
        cgmath::Vector4::new(1.0, 0.0, 0.0, 0.0),
        cgmath::Vector4::new(0.0, 1.0, 0.0, 0.0),
        cgmath::Vector4::new(0.0, 0.0, 0.5, 0.0),
        cgmath::Vector4::new(0.0, 0.0, 0.5, 1.0),
    );
    assert_eq!(Mat4::depth_correction(), from_cgmath(fixed));
}

#[test]
fn depth_correction_takes_depth_from_minus_one_to_one_into_zero_to_one() {
    let m = Mat4::depth_correction();
    let f = |s: Scalar| f32::from_bits(s.to_bits());
    let col = |v: Vec4| cgmath::Vector4::new(f(v.x), f(v.y), f(v.z), f(v.w));
    let correction = Matrix4::from_cols(col(m.x), col(m.y), col(m.z), col(m.w));
    let near = correction * cgmath::Vector4::new(0.25, -0.5, -1.0, 1.0);
    assert_eq!(near, cgmath::Vector4::new(0.25, -0.5, 0.0, 1.0));
    let far = correction * cgmath::Vector4::new(0.25, -0.5, 1.0, 1.0);
    assert_eq!(far, cgmath::Vector4::new(0.25, -0.5, 1.0, 1.0));
    let middle = correction * cgmath::Vector4::new(3.0, 4.0, 0.0, 2.0);
    assert_eq!(middle, cgmath::Vector4::new(3.0, 4.0, 1.0, 2.0));
}

#[test]
fn vec4_from_bits_keeps_the_order() {
    let v = Vec4::from_bits(1, 2, 3, 4);
    assert_eq!((v.x.bits, v.y.bits, v.z.bits, v.w.bits), (1, 2, 3, 4));
}

#[test]
fn words_go_column_after_column() {
    let words = counting().to_words();
    assert_eq!(words, (1..=16u32).collect::<Vec<u32>>());
}

#[test]
fn payload_is_sixty_four_bytes() {
    assert_eq!(MATRIX_BYTES, 64);
    let bytes = counting().to_bytes();
    assert_eq!(bytes.len(), 64);
    let mut expected: Vec<u8> = Vec::new();
    for w in 1..=16u32 {
        expected.extend_from_slice(&w.to_le_bytes());
    }
    assert_eq!(bytes, expected);
}

#[test]
fn payload_of_identity_is_the_floats_in_order() {
    let m: [[f32; 4]; 4] = Matrix4::<f32>::identity().into();
    let mut expected: Vec<u8> = Vec::new();
    for col in m.iter() {
        for x in col.iter() {
            expected.extend_from_slice(&x.to_le_bytes());
        }
    }
    assert_eq!(Mat4::identity().to_bytes(), expected);
}

#[test]
fn matrices_that_differ_have_payloads_that_differ() {
    let a = counting();
    let mut b = counting();
    b.w.w = Scalar::from_bits(17);
    assert_ne!(a.to_bytes(), b.to_bytes());
    let mut c = counting();
    c.x.x = Scalar::from_bits(0x0100_0001);
    assert_ne!(a.to_bytes(), c.to_bytes());
}

#[test]
fn a_buffer_of_matrices_is_their_payloads_in_order() {
    let ms = vec![counting(), Mat4::identity(), Mat4::depth_correction()];
    let mut expected: Vec<u8> = Vec::new();
    expected.extend_from_slice(&counting().to_bytes());
    expected.extend_from_slice(&Mat4::identity().to_bytes());
    expected.extend_from_slice(&Mat4::depth_correction().to_bytes());
    let bytes = shapes::matrix::encode_matrices(&ms);
    assert_eq!(bytes.len(), 192);
    assert_eq!(bytes, expected);
    assert!(shapes::matrix::encode_matrices(&Vec::new()).is_empty());
}
