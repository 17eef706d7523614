use geoplegma::adapters::h3o::common::{
    are_cells, cell_strings, children_to_strings, latlng_to_point, refinement_level_to_h3_resolution,
    ring_strings, zones_of_indexes,
};
use geoplegma::adapters::h3o::h3::{all_cells_of_earth, H3Impl};
use geoplegma::error::{GeoPlegmaError, H3oError};
use geoplegma::geometry::{Point, Rect};
use geoplegma::models::{RefinementLevel, RelativeDepth, ZoneId};
use geoplegma::ports::{DggrsPort, DggrsPortConfig};

fn config(on: bool) -> DggrsPortConfig {
    DggrsPortConfig {
        region: on,
        center: on,
        vertex_count: on,
        children: on,
        neighbors: on,
        area_sqm: on,
        densify: on,
    }
}

fn level(n: i32) -> RefinementLevel {
    RefinementLevel::new(n).unwrap()
}

#[test]
fn resolution_of_a_level() {
    assert_eq!(refinement_level_to_h3_resolution(level(0)).unwrap(), 0);
    assert_eq!(refinement_level_to_h3_resolution(level(15)).unwrap(), 15);
    match refinement_level_to_h3_resolution(level(16)) {
        Err(GeoPlegmaError::H3o(H3oError::CannotTranslateToH3Resolution { rf })) => {
            assert_eq!(rf, "16")
        }
        other => panic!("unexpected {:?}", other),
    }
}

#[test]
fn h3_bbox_above_the_maximum_is_refused() {
    let h3 = H3Impl::new();
    let max = h3.max_refinement_level().unwrap();
    assert_eq!(max.get(), 15);
    let above = level(max.get() + 1);
    match h3.zones_from_bbox(above, None, None) {
        Err(GeoPlegmaError::RefinementLevelLimitReached { grid_name, requested, maximum }) => {
            assert_eq!(grid_name, "H3");
            assert_eq!(requested, above);
            assert_eq!(maximum, max);
        }
        other => panic!("unexpected {:?}", other.map(|z| z.zones.len())),
    }
    let rect = Rect { inner: geo::Rect::new((-77.0, 39.0), (-76.0, 40.0)) };
    assert!(matches!(
        h3.zones_from_bbox(above, Some(rect), None),
        Err(GeoPlegmaError::RefinementLevelLimitReached { .. })
    ));
    let point = Point { inner: geo::Point::new(10.9, 4.9) };
    assert!(matches!(
        h3.zone_from_point(above, point, None),
        Err(GeoPlegmaError::RefinementLevelLimitReached { .. })
    ));
}

#[test]
fn whole_earth_is_capped() {
    let h3 = H3Impl::default();
    match h3.zones_from_bbox(level(3), None, Some(config(false))) {
        Err(GeoPlegmaError::RefinementLevelTooHigh(l)) => assert_eq!(l.get(), 3),
        other => panic!("unexpected {:?}", other.map(|z| z.zones.len())),
    }
    assert_eq!(h3.zones_from_bbox(level(0), None, Some(config(false))).unwrap().zones.len(), 122);
    assert_eq!(h3.zones_from_bbox(level(1), None, Some(config(false))).unwrap().zones.len(), 842);
    assert_eq!(all_cells_of_earth(2).len(), 5882);
    let base = all_cells_of_earth(0);
    assert_eq!(base[0], 0x8001fffffffffff);
    assert_eq!(base[121], 0x80f3fffffffffff);
}

#[test]
fn small_bbox_gives_one_zone_and_the_earth_gives_more() {
    let h3 = H3Impl::new();
    let center = h3
        .zone_from_point(level(2), Point { inner: geo::Point::new(10.9, 4.9) }, None)
        .unwrap();
    let c = center.zones[0].center.as_ref().unwrap().inner;
    let rect = Rect {
        inner: geo::Rect::new((c.x() - 0.001, c.y() - 0.001), (c.x() + 0.001, c.y() + 0.001)),
    };
    let inside = h3.zones_from_bbox(level(2), Some(rect), Some(config(false))).unwrap();
    assert_eq!(inside.zones.len(), 1);
    assert_eq!(inside.zones[0].id, center.zones[0].id);
    let earth = h3.zones_from_bbox(level(2), None, Some(config(false))).unwrap();
    assert!(earth.zones.len() > inside.zones.len());
    assert_eq!(earth.zones.len(), 5882);
}

#[test]
fn bbox_is_covered_at_the_level_asked_for() {
    let h3 = H3Impl::new();
    let rect = Rect { inner: geo::Rect::new((-77.0, 39.0), (-76.0, 40.0)) };
    let coarse = h3.zones_from_bbox(level(3), Some(rect.clone()), Some(config(false))).unwrap();
    let fine = h3.zones_from_bbox(level(5), Some(rect), Some(config(false))).unwrap();
    assert!(!coarse.zones.is_empty());
    assert!(fine.zones.len() > coarse.zones.len());
    for z in &fine.zones {
        let id = z.id.to_string();
        assert_eq!(id.len(), 15);
        assert!(id.starts_with("85"));
    }
}

#[test]
fn point_gives_one_zone() {
    let h3 = H3Impl::new();
    let point = Point { inner: geo::Point::new(2.349014, 48.864716) };
    let zones = h3.zone_from_point(level(10), point, None).unwrap().zones;
    assert_eq!(zones.len(), 1);
    let z = &zones[0];
    assert_eq!(z.id, ZoneId::new_hex("8a1fb4662d47fff").unwrap());
    let c = z.center.as_ref().unwrap().inner;
    assert!((c.x() - 2.349014).abs() < 0.01 && (c.y() - 48.864716).abs() < 0.01);
    assert_eq!(z.vertex_count, Some(6));
    assert_eq!(z.region.as_ref().unwrap().inner.exterior().0.len(), 7);
    assert_eq!(z.children.as_ref().unwrap().len(), 7);
    assert_eq!(z.neighbors.as_ref().unwrap().len(), 7);
    assert!(z.neighbors.as_ref().unwrap().contains(&z.id));
    let area = f64::from_bits(z.area_sqm.unwrap().bits);
    assert!(area > 1.0e4 && area < 2.0e4, "area {}", area);
    for child in z.children.as_ref().unwrap() {
        assert!(child.to_string().starts_with("8b1fb4662d4"));
    }
}

#[test]
fn point_without_finite_coordinates_is_refused() {
    let h3 = H3Impl::new();
    let point = Point { inner: geo::Point::new(f64::NAN, 1.0) };
    assert!(matches!(
        h3.zone_from_point(level(3), point, None),
        Err(GeoPlegmaError::H3o(H3oError::InvalidCoordinate))
    ));
}

#[test]
fn switched_off_fields_are_absent() {
    let h3 = H3Impl::new();
    let id = ZoneId::new_hex("8a1fb46622dffff").unwrap();
    let zones = h3.zone_from_id(id.clone(), Some(config(false))).unwrap().zones;
    assert_eq!(zones.len(), 1);
    let z = &zones[0];
    assert_eq!(z.id, id);
    assert!(z.region.is_none() && z.center.is_none() && z.vertex_count.is_none());
    assert!(z.children.is_none() && z.neighbors.is_none() && z.area_sqm.is_none());

    let mut only_count = config(false);
    only_count.vertex_count = true;
    let zones = h3.zone_from_id(id.clone(), Some(only_count)).unwrap().zones;
    assert_eq!(zones[0].vertex_count, Some(6));
    assert!(zones[0].region.is_none() && zones[0].area_sqm.is_none());

    let mut only_area = config(false);
    only_area.area_sqm = true;
    let zones = h3.zone_from_id(id, Some(only_area)).unwrap().zones;
    assert!(zones[0].area_sqm.is_some());
    assert!(zones[0].region.is_none() && zones[0].vertex_count.is_none());
}

#[test]
fn zone_from_id_reads_hexadecimal() {
    let h3 = H3Impl::new();
    let zones = h3
        .zone_from_id(ZoneId::new_str("811fbffffffffff").unwrap(), Some(config(false)))
        .unwrap()
        .zones;
    assert_eq!(zones.len(), 1);
    assert_eq!(zones[0].id, ZoneId::new_hex("811fbffffffffff").unwrap());
    match h3.zone_from_id(ZoneId::new_str("not a cell").unwrap(), None) {
        Err(GeoPlegmaError::H3o(H3oError::InvalidZoneID { zone_id })) => {
            assert_eq!(zone_id, "not a cell")
        }
        other => panic!("unexpected {:?}", other.map(|z| z.zones.len())),
    }
    assert!(matches!(
        h3.zone_from_id(ZoneId::new_int(5), None),
        Err(GeoPlegmaError::H3o(H3oError::InvalidZoneID { .. }))
    ));
}

#[test]
fn children_at_the_finest_resolution() {
    let h3 = H3Impl::new();
    let point = Point { inner: geo::Point::new(2.349014, 48.864716) };
    let mut cfg = config(false);
    cfg.children = true;
    match h3.zone_from_point(level(15), point.clone(), Some(cfg)) {
        Err(GeoPlegmaError::H3o(H3oError::ResolutionLimitReached { zone_id })) => {
            assert!(zone_id.starts_with("8f1fb4662d4"), "{}", zone_id)
        }
        other => panic!("unexpected {:?}", other.map(|z| z.zones.len())),
    }
    let zones = h3.zone_from_point(level(15), point, Some(config(false))).unwrap().zones;
    assert_eq!(zones.len(), 1);
}

#[test]
fn descendants_of_a_parent() {
    let h3 = H3Impl::new();
    let parent = ZoneId::new_hex("811fbffffffffff").unwrap();
    let depth = |n| RelativeDepth::new(n).unwrap();
    let zones = h3.zones_from_parent(depth(1), parent.clone(), Some(config(false))).unwrap().zones;
    assert_eq!(zones.len(), 7);
    for z in &zones {
        assert!(z.id.to_string().starts_with("821f"));
    }
    assert_eq!(
        h3.zones_from_parent(depth(2), parent.clone(), Some(config(false))).unwrap().zones.len(),
        49
    );
    let same = h3.zones_from_parent(depth(0), parent.clone(), Some(config(false))).unwrap().zones;
    assert_eq!(same.len(), 1);
    assert_eq!(same[0].id, parent);
    match h3.zones_from_parent(depth(7), parent.clone(), None) {
        Err(GeoPlegmaError::RelativeDepthLimitReached { requested, maximum, .. }) => {
            assert_eq!(requested.get(), 7);
            assert_eq!(maximum.get(), 6);
        }
        other => panic!("unexpected {:?}", other.map(|z| z.zones.len())),
    }
    let fine = ZoneId::new_hex("8a1fb46622dffff").unwrap();
    match h3.zones_from_parent(depth(6), fine.clone(), None) {
        Err(GeoPlegmaError::RefinementLevelPlusRelativeDepthLimitReached {
            requested,
            maximum,
            ..
        }) => {
            assert_eq!(requested.get(), 6);
            assert_eq!(maximum.get(), 15);
        }
        other => panic!("unexpected {:?}", other.map(|z| z.zones.len())),
    }
    assert_eq!(
        h3.zones_from_parent(depth(5), fine, Some(config(false))).unwrap().zones.len(),
        16807
    );
    assert!(matches!(
        h3.zones_from_parent(depth(1), ZoneId::new_str("nothing").unwrap(), None),
        Err(GeoPlegmaError::H3o(H3oError::InvalidZoneID { .. }))
    ));
}

#[test]
fn h3_capabilities_come_from_the_registry() {
    let h3 = H3Impl::new();
    assert_eq!(h3.min_refinement_level().unwrap().get(), 0);
    assert_eq!(h3.max_refinement_level().unwrap().get(), 15);
    assert_eq!(h3.default_refinement_level().unwrap().get(), 2);
    assert_eq!(h3.max_relative_depth().unwrap().get(), 6);
    assert_eq!(h3.default_relative_depth().unwrap().get(), 4);
}

#[test]
fn indexes_are_checked_before_use() {
    assert!(are_cells(&vec![0x8a1fb46622dffff, 0x811fbffffffffff]));
    assert!(!are_cells(&vec![0x8a1fb46622dffff, 42]));
    assert!(zones_of_indexes(vec![42], config(false)).is_none());
    let zones = zones_of_indexes(vec![0x811fbffffffffff], config(false)).unwrap().unwrap();
    assert_eq!(zones.zones[0].id.to_string(), "811fbffffffffff");
    assert_eq!(
        children_to_strings(&vec![0x8a1fb46622dffff, 0x811fbffffffffff]),
        vec!["8a1fb46622dffff", "811fbffffffffff"]
    );
    assert_eq!(
        ring_strings(&vec![Some(0x8a1fb46622dffff), None, Some(0x811fbffffffffff)]).unwrap(),
        vec!["8a1fb46622dffff", "811fbffffffffff"]
    );
    assert!(ring_strings(&vec![Some(1), None]).is_none());
}

#[test]
fn positions_become_points() {
    let position = h3o::LatLng::new(48.864716, 2.349014).unwrap();
    let point = latlng_to_point(position);
    assert!((point.inner.x() - 2.349014).abs() < 1e-12);
    assert!((point.inner.y() - 48.864716).abs() < 1e-12);
}

#[test]
fn base_cells_follow_the_bit_layout() {
    let base = all_cells_of_earth(0);
    assert_eq!(base.len(), 122);
    for (i, cell) in base.iter().enumerate() {
        assert_eq!(*cell, 0x0800_1fff_ffff_ffff + (i as u64) * 0x2000_0000_0000);
        assert_eq!((cell & 0x00f0_0000_0000_0000) >> 52, 0);
    }
    for cell in all_cells_of_earth(2) {
        assert_eq!((cell & 0x00f0_0000_0000_0000) >> 52, 2);
    }
}

#[test]
fn cells_are_written_in_lower_case_hexadecimal() {
    let cells = vec![0x8a1fb46622dffff, 0x811fbffffffffff, 0x8001fffffffffff];
    let texts = cell_strings(&cells).unwrap();
    for (cell, text) in cells.iter().zip(&texts) {
        assert_eq!(*text, format!("{:x}", cell));
    }
    assert!(cell_strings(&vec![0]).is_none());
}
