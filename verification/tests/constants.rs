use geoplegma::constants::{
    degenerate_triangle_threshold, geometric_tolerance, IcosahedronConstants, KarneyCoefficients,
    Ratio, Tolerance, WGS84,
};
use geoplegma::geometry::Point;

fn value(r: Ratio) -> f64 {
    r.num as f64 / r.den as f64
}

#[test]
fn test_wgs84_constants_relationships() {
    let a = value(WGS84::major_axis());
    let b = value(WGS84::minor_axis());

    let calculated_flattening = (a - b) / a;
    assert!((calculated_flattening - value(WGS84::flattening())).abs() < 1e-10);

    let calculated_e_sq = (a * a - b * b) / (a * a);
    assert!((calculated_e_sq - value(WGS84::eccentricity_squared())).abs() < 1e-10);

    assert!(value(WGS84::major_axis()) > value(WGS84::minor_axis()));

    assert!(value(WGS84::minor_axis()) < value(WGS84::authalic_radius()));
    assert!(value(WGS84::authalic_radius()) < value(WGS84::major_axis()));
}

#[test]
fn wgs84_values_are_the_published_ones() {
    assert_eq!(value(WGS84::major_axis()), 6378137.0);
    assert_eq!(value(WGS84::minor_axis()), 6356752.314245);
    assert!((value(WGS84::authalic_radius()) - 6371007.1809184747).abs() < 1e-6);
    assert!((value(WGS84::eccentricity_squared()) - 0.006694379990141316).abs() < 1e-18);
    assert!((value(WGS84::flattening()) - 1.0 / 298.257223563).abs() < 1e-18);
    let f = value(WGS84::flattening());
    assert!((value(WGS84::third_flattening()) - f / (2.0 - f)).abs() < 1e-18);
}

#[test]
fn test_tolerance_ordering() {
    assert!(value(Tolerance::angular()) < value(Tolerance::coordinate()));
    assert!(value(Tolerance::vector_normalization()) < value(Tolerance::coordinate()));
    assert!(Tolerance::angular().lt(&Tolerance::coordinate()));
    assert!(Tolerance::vector_normalization().lt(&Tolerance::coordinate()));
    assert!(!Tolerance::coordinate().lt(&Tolerance::angular()));
}

#[test]
fn tolerance_values() {
    assert_eq!(value(Tolerance::coordinate()), 1e-9);
    assert_eq!(value(Tolerance::vector_normalization()), 1e-10);
    assert_eq!(value(Tolerance::angular()), 1e-12);
    assert_eq!(value(Tolerance::area()), 1e-12);
    assert_eq!(value(Tolerance::unit_sphere_distance()), 1e-10);
    assert_eq!(value(Tolerance::barycentric()), 1e-10);
}

#[test]
fn test_constants_are_reasonable() {
    assert!(value(geometric_tolerance()) > 0.0);
    assert!(value(geometric_tolerance()) < 1e-5);

    assert!(value(degenerate_triangle_threshold()) > 0.0);
    assert!(value(degenerate_triangle_threshold()) < 1e-5);
}

#[test]
fn test_karney_coefficients_length() {
    assert_eq!(KarneyCoefficients::geodetic_to_authalic().len(), 21);
    assert_eq!(KarneyCoefficients::authalic_to_geodetic().len(), 21);
}

#[test]
fn karney_coefficients_values() {
    let g = KarneyCoefficients::geodetic_to_authalic();
    let a = KarneyCoefficients::authalic_to_geodetic();
    assert_eq!(value(g[0]), 4.0 / 3.0);
    assert_eq!(value(g[3]), -2582.0 / 14175.0);
    assert_eq!(value(g[20]), 4210684958.0 / 1915538625.0);
    assert_eq!(value(a[0]), -4.0 / 3.0);
    assert_eq!(value(a[5]), -44732.0 / 2837835.0);
    assert_eq!(value(a[20]), 570284222.0 / 1915538625.0);
}

#[test]
fn test_icosahedron_euler_characteristic() {
    let v = IcosahedronConstants::VERTEX_COUNT as i32;
    let e = IcosahedronConstants::EDGE_COUNT as i32;
    let f = IcosahedronConstants::FACE_COUNT as i32;

    assert_eq!(v - e + f, 2);
}

#[test]
fn test_radius_ratio_bounds() {
    assert!(value(IcosahedronConstants::radius_ratio()) > 0.0);
    assert!(value(IcosahedronConstants::radius_ratio()) < 1.0);
    assert_eq!(value(IcosahedronConstants::radius_ratio()), 0.9103832815095034);
    assert_eq!(value(IcosahedronConstants::dihedral_angle()), 2.41231732);
}

#[test]
fn test_point_creation() {
    let position = Point { inner: geo::Point::new(-9.222154, 38.695125) };
    assert_eq!(position.inner.x(), -9.222154);
    assert_eq!(position.inner.y(), 38.695125);
}

#[test]
fn ratio_comparison_is_by_cross_multiplication() {
    assert!(Ratio::new(1, 3).lt(&Ratio::new(1, 2)));
    assert!(Ratio::new(-1, 2).lt(&Ratio::new(-1, 3)));
    assert!(!Ratio::new(2, 4).lt(&Ratio::new(1, 2)));
    assert!(Ratio::new(i64::MIN, 1).lt(&Ratio::new(i64::MAX, u64::MAX)));
}
