use lith::geo::{Mesh, MeshError, Vec3};

fn v(x: f32, y: f32, z: f32) -> Vec3 {
    Vec3 { x: x.to_bits(), y: y.to_bits(), z: z.to_bits() }
}

fn read_f32(bytes: &[u8], at: usize) -> f32 {
    f32::from_le_bytes([bytes[at], bytes[at + 1], bytes[at + 2], bytes[at + 3]])
}

#[test]
fn vec3_bytes_are_little_endian_bits() {
    let bytes = v(1.0, -2.5, 0.0).to_bytes();
    assert_eq!(bytes, [0, 0, 0x80, 0x3f, 0, 0, 0x20, 0xc0, 0, 0, 0, 0]);
}

#[test]
fn one_triangle_round_trips() {
    let a = v(1.5, -0.25, 3.0e-7);
    let b = v(f32::MAX, f32::MIN_POSITIVE, -0.0);
    let c = v(123456.78, 0.1, -42.0);
    let n = v(0.0, 0.0, 1.0);
    let mesh = Mesh::new(vec![a, b, c]);
    let bytes = mesh.as_stl_bytes(&vec![n]).unwrap();
    assert_eq!(bytes.len(), 134);
    assert!(bytes[..80].iter().all(|b| *b == 0));
    assert_eq!(u32::from_le_bytes([bytes[80], bytes[81], bytes[82], bytes[83]]), 1);
    assert_eq!(read_f32(&bytes, 84 + 8).to_bits(), (1.0f32).to_bits());
    let expected = [1.5f32, -0.25, 3.0e-7, f32::MAX, f32::MIN_POSITIVE, -0.0, 123456.78, 0.1, -42.0];
    for (i, e) in expected.iter().enumerate() {
        assert_eq!(read_f32(&bytes, 96 + 4 * i).to_bits(), e.to_bits());
    }
    assert_eq!(&bytes[132..134], &[0, 0]);
}

#[test]
fn serializing_twice_gives_the_same_bytes() {
    let mesh = Mesh::new(vec![
        v(0.0, 0.0, 0.0),
        v(1.0, 0.0, 0.0),
        v(0.0, 1.0, 0.0),
        v(0.0, 0.0, 1.0),
        v(1.0, 1.0, 1.0),
        v(2.0, 0.5, -1.0),
    ]);
    let normals = vec![v(0.0, 0.0, 1.0), v(0.5, 0.5, 0.5)];
    let first = mesh.as_stl_bytes(&normals).unwrap();
    let second = mesh.as_stl_bytes(&normals).unwrap();
    assert_eq!(first, second);
    assert_eq!(first.len(), 84 + 50 * 2);
}

#[test]
fn empty_mesh_is_header_and_zero_count() {
    let bytes = Mesh::new(vec![]).as_stl_bytes(&vec![]).unwrap();
    assert_eq!(bytes, vec![0u8; 84]);
}

#[test]
fn vertex_count_not_a_multiple_of_three_is_malformed() {
    let mesh = Mesh::new(vec![v(0.0, 0.0, 0.0), v(1.0, 0.0, 0.0)]);
    assert_eq!(mesh.as_stl_bytes(&vec![]), Err(MeshError::Malformed));
}

#[test]
fn wrong_number_of_normals_is_refused() {
    let mesh = Mesh::new(vec![v(0.0, 0.0, 0.0), v(1.0, 0.0, 0.0), v(0.0, 1.0, 0.0)]);
    assert_eq!(mesh.as_stl_bytes(&vec![]), Err(MeshError::NormalCount));
    let two = vec![v(0.0, 0.0, 1.0), v(0.0, 0.0, 1.0)];
    assert_eq!(mesh.as_stl_bytes(&two), Err(MeshError::NormalCount));
}

#[test]
fn triangle_count_is_whole_triangles() {
    let mesh = Mesh::new(vec![v(0.0, 0.0, 0.0); 7]);
    assert_eq!(mesh.triangle_count(), 2);
    assert_eq!(mesh.vertices().len(), 7);
}
