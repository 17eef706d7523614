use geoplegma::constants::IcosahedronConstants;
use geoplegma::models::RefinementLevel;
use geoplegma::polyhedron::{create_faces, Face, IVEA3HBary, IVEA3H};

#[test]
fn faces_of_the_icosahedron() {
    let faces = create_faces();
    assert_eq!(faces.len(), IcosahedronConstants::FACE_COUNT as usize);
    assert_eq!(faces[0].indices(), vec![0, 11, 5]);
    assert_eq!(faces[19].indices(), vec![9, 8, 1]);
    let mut corners = [0usize; 12];
    for face in &faces {
        assert!(matches!(face, Face::Triangle(_)));
        let idx = face.indices();
        assert_eq!(idx.len(), 3);
        for i in idx {
            corners[i] += 1;
        }
    }
    // five faces meet at every vertex
    assert!(corners.iter().all(|&n| n == 5));
}

#[test]
fn indices_of_every_kind_of_face() {
    assert_eq!(Face::Quad([1, 2, 3, 4]).indices(), vec![1, 2, 3, 4]);
    assert_eq!(Face::Pentagon([5, 4, 3, 2, 1]).indices(), vec![5, 4, 3, 2, 1]);
    assert_eq!(Face::Hexagon([0, 1, 2, 3, 4, 5]).indices(), vec![0, 1, 2, 3, 4, 5]);
    assert_eq!(Face::Polygon(vec![7, 8]).indices(), vec![7, 8]);
    assert!(Face::Polygon(vec![]).indices().is_empty());
}

#[test]
fn denominators_grow_by_three_over_four_levels() {
    let denom = |n| IVEA3HBary::compute_denom(RefinementLevel::new(n).unwrap());
    assert_eq!(denom(0), 1);
    assert_eq!(denom(1), 1);
    assert_eq!(denom(2), 3);
    assert_eq!(denom(3), 9);
    assert_eq!(denom(4), 27);
    assert_eq!(denom(5), 27);
    assert_eq!(denom(27), 3486784401);
    assert_eq!(IVEA3H::compute_denom(RefinementLevel::new(3).unwrap()), 9);
    assert_eq!(IVEA3HBary::APERTURE, 3);
    IVEA3HBary::bundle_index(4, 1, RefinementLevel::new(3).unwrap(), 0);
}
