use zkp_pipeline::point::{distance_squared, normalize_point, Point3D, RawPoint};

fn raw(x_micros: i64, y_micros: i64, z_micros: i64) -> RawPoint {
    RawPoint { x_micros, y_micros, z_micros }
}

#[test]
fn unit_displacement_normalizes_to_scale() {
    let start = normalize_point(&raw(0, 0, 0)).unwrap();
    let end = normalize_point(&raw(1_000_000, 0, 0)).unwrap();
    assert_eq!(start, Point3D { x: 0, y: 0, z: 0 });
    assert_eq!(end, Point3D { x: 100_000, y: 0, z: 0 });
    assert_eq!(distance_squared(&start, &end), 10_000_000_000u64);
}

#[test]
fn normalization_rounds_to_nearest_preserving_sign() {
    let p = normalize_point(&raw(14, 15, 24)).unwrap();
    assert_eq!(p, Point3D { x: 1, y: 2, z: 2 });
    let n = normalize_point(&raw(-14, -15, -24)).unwrap();
    assert_eq!(n, Point3D { x: -1, y: -2, z: -2 });
}

#[test]
fn normalization_scales_fractional_units() {
    // 2.5 units -> 250000 in the circuit domain.
    let p = normalize_point(&raw(2_500_000, -2_500_000, 0)).unwrap();
    assert_eq!(p, Point3D { x: 250_000, y: -250_000, z: 0 });
}

#[test]
fn out_of_range_coordinate_is_refused() {
    assert!(normalize_point(&raw(10_000_000_001, 0, 0)).is_none());
    assert!(normalize_point(&raw(0, -10_000_000_001, 0)).is_none());
    assert!(normalize_point(&raw(10_000_000_000, -10_000_000_000, 0)).is_some());
}

#[test]
fn distance_squared_sums_all_axes() {
    let a = Point3D { x: 1, y: 2, z: 3 };
    let b = Point3D { x: 4, y: 6, z: 3 };
    assert_eq!(distance_squared(&a, &b), 9 + 16);
    assert_eq!(distance_squared(&b, &a), 9 + 16);
}

#[test]
fn distance_squared_at_domain_edges() {
    let a = Point3D { x: -1_000_000_000, y: -1_000_000_000, z: -1_000_000_000 };
    let b = Point3D { x: 1_000_000_000, y: 1_000_000_000, z: 1_000_000_000 };
    assert_eq!(distance_squared(&a, &b), 3 * 4_000_000_000_000_000_000u64);
}
