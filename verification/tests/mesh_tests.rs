use sailfish::Mesh;
use sailfish::StructuredMesh;

fn faces(values: &[f64]) -> Mesh {
    Mesh::FacePositions1D(values.iter().map(|v| v.to_bits()).collect())
}

fn grid(ni: usize, nj: usize, dx: f64, dy: f64) -> Mesh {
    Mesh::Structured(StructuredMesh { ni, nj, dx_bits: dx.to_bits(), dy_bits: dy.to_bits() })
}

#[test]
fn face_positions_zone_count_and_min_spacing() {
    let m = faces(&[0.0, 1.0, 2.5, 4.0]);
    assert_eq!(m.num_total_zones(), 3);
    assert_eq!(f64::from_bits(m.min_spacing()), 1.0);
}

#[test]
fn structured_min_spacing_is_smaller_axis_spacing() {
    let m = grid(16, 16, 0.5, 0.2);
    assert_eq!(f64::from_bits(m.min_spacing()), 0.2);
    let m = grid(16, 16, 0.2, 0.5);
    assert_eq!(f64::from_bits(m.min_spacing()), 0.2);
}

#[test]
fn structured_zone_count_is_product_of_axes() {
    let m = grid(4, 5, 0.5, 0.2);
    assert_eq!(m.num_total_zones(), 20);
}

#[test]
fn min_spacing_subtracts_adjacent_faces() {
    let m = faces(&[5.0, 6.0, 9.0]);
    assert_eq!(f64::from_bits(m.min_spacing()), 1.0);
    let m = faces(&[-4.0, -1.5, 0.5]);
    assert_eq!(f64::from_bits(m.min_spacing()), 2.0);
}

#[test]
fn single_zone_mesh_yields_its_one_gap() {
    let m = faces(&[2.0, 2.25]);
    assert_eq!(m.num_total_zones(), 1);
    assert_eq!(f64::from_bits(m.min_spacing()), 0.25);
}

#[test]
fn mesh_equality_is_structural() {
    let a = faces(&[0.0, 1.0, 2.0]);
    let b = faces(&[0.0, 1.0, 2.0]);
    let c = faces(&[0.0, 1.0, 3.0]);
    assert!(a == b);
    assert!(!(a == c));
    let g = grid(2, 2, 0.1, 0.2);
    let h = grid(2, 2, 0.1, 0.2);
    assert!(g == h);
    assert!(!(g == a));
}

#[test]
fn float_bit_comparison_matches_ieee_order() {
    assert!(sailfish::f64_bits_lt((-1.0f64).to_bits(), 1.0f64.to_bits()));
    assert!(sailfish::f64_bits_lt(0.1f64.to_bits(), 0.2f64.to_bits()));
    assert!(!sailfish::f64_bits_lt(0.2f64.to_bits(), 0.2f64.to_bits()));
    assert!(!sailfish::f64_bits_lt(f64::NAN.to_bits(), 1.0f64.to_bits()));
    assert!(!sailfish::f64_bits_lt((-0.0f64).to_bits(), 0.0f64.to_bits()));
    assert_eq!(
        f64::from_bits(sailfish::f64_bits_min(0.5f64.to_bits(), 0.2f64.to_bits())),
        0.2
    );
}
