use geoplegma::adapters::dggal::common::{assemble_zone, bbox_to_geoextent, to_geo_point, ZoneParts};
use geoplegma::adapters::dggal::grids::{level_of_depth, target_level, zone_number, DggalImpl};
use geoplegma::error::{DggalError, GeoPlegmaError};
use geoplegma::geometry::{Point, Rect};
use geoplegma::models::{RefinementLevel, RelativeDepth, ZoneId};
use geoplegma::ports::DggrsPortConfig;
use geoplegma::registry::DggrsUid;

fn switches(on: bool) -> DggrsPortConfig {
    DggrsPortConfig {
        region: on,
        center: on,
        vertex_count: on,
        children: on,
        neighbors: on,
        area_sqm: on,
        densify: on,
    }
}

fn no_parts() -> ZoneParts {
    ZoneParts { center: None, region: None, area_sqm: None, edges: None, children: None, neighbors: None }
}

#[test]
fn degrees_become_radians() {
    let p = to_geo_point(&Point { inner: geo::Point::new(180.0, 90.0) });
    assert!((p.lon - std::f64::consts::PI).abs() < 1e-12);
    assert!((p.lat - std::f64::consts::FRAC_PI_2).abs() < 1e-12);
    let e = bbox_to_geoextent(&Rect { inner: geo::Rect::new((-180.0, -90.0), (180.0, 90.0)) });
    assert!((e.ll.lon + std::f64::consts::PI).abs() < 1e-12);
    assert!((e.ll.lat + std::f64::consts::FRAC_PI_2).abs() < 1e-12);
    assert!((e.ur.lon - std::f64::consts::PI).abs() < 1e-12);
    assert!((e.ur.lat - std::f64::consts::FRAC_PI_2).abs() < 1e-12);
}

#[test]
fn zone_is_made_of_its_parts() {
    let mut parts = no_parts();
    parts.edges = Some(6);
    parts.children = Some(vec![11, 12, 13]);
    parts.neighbors = Some(vec![]);
    let zone = assemble_zone(42, parts).unwrap();
    assert_eq!(zone.id, ZoneId::new_int(42));
    assert_eq!(zone.vertex_count, Some(6));
    assert_eq!(
        zone.children,
        Some(vec![ZoneId::new_int(11), ZoneId::new_int(12), ZoneId::new_int(13)])
    );
    assert_eq!(zone.neighbors, Some(vec![]));
    assert!(zone.region.is_none() && zone.center.is_none() && zone.area_sqm.is_none());
    let bare = assemble_zone(7, no_parts()).unwrap();
    assert_eq!(bare.id, ZoneId::new_int(7));
    assert!(bare.vertex_count.is_none() && bare.children.is_none() && bare.neighbors.is_none());
}

#[test]
fn negative_edge_count_is_an_error() {
    let mut parts = no_parts();
    parts.edges = Some(-1);
    match assemble_zone(42, parts) {
        Err(GeoPlegmaError::Dggal(DggalError::EdgeCountConversion { zone_id, count })) => {
            assert_eq!(zone_id, "42");
            assert_eq!(count, -1);
        }
        other => panic!("unexpected {:?}", other),
    }
}

#[test]
fn target_level_of_a_parent() {
    let depth = |n| RelativeDepth::new(n).unwrap();
    let max = |n| RefinementLevel::new(n).unwrap();
    assert_eq!(target_level(DggrsUid::IVEA3H, 5, depth(3), max(33)).unwrap().get(), 8);
    assert_eq!(target_level(DggrsUid::IVEA3H, 30, depth(3), max(33)).unwrap().get(), 33);
    match target_level(DggrsUid::IVEA3H, 31, depth(3), max(33)) {
        Err(GeoPlegmaError::RefinementLevelPlusRelativeDepthLimitReached {
            grid_name,
            requested,
            maximum,
        }) => {
            assert_eq!(grid_name, "IVEA3H");
            assert_eq!(requested.get(), 3);
            assert_eq!(maximum.get(), 33);
        }
        other => panic!("unexpected {:?}", other),
    }
    assert!(matches!(
        target_level(DggrsUid::IVEA3H, 31, depth(3), max(34)),
        Ok(_)
    ));
    assert!(matches!(
        target_level(DggrsUid::ISEA9R, i32::MAX, depth(1), max(i32::MAX)),
        Err(GeoPlegmaError::RefinementLevelPlusRelativeDepthLimitReached { .. })
    ));
    assert!(matches!(
        target_level(DggrsUid::ISEA9R, -1, depth(1), max(16)),
        Err(GeoPlegmaError::DepthBelowZero(-1))
    ));
}

#[test]
fn plans_fix_what_is_handed_to_the_library() {
    let adapter = DggalImpl::new(DggrsUid::IVEA3H);
    let level = |n| RefinementLevel::new(n).unwrap();
    let rect = Rect { inner: geo::Rect::new((-90.0, -45.0), (90.0, 45.0)) };
    let list = adapter.plan_zones_from_bbox(level(20), level(4), Some(rect), Some(switches(false))).unwrap();
    assert_eq!(list.level, 4);
    assert!((list.extent.ll.lon + std::f64::consts::FRAC_PI_2).abs() < 1e-12);
    assert!((list.extent.ll.lat + std::f64::consts::FRAC_PI_4).abs() < 1e-12);
    assert!((list.extent.ur.lon - std::f64::consts::FRAC_PI_2).abs() < 1e-12);
    assert!((list.extent.ur.lat - std::f64::consts::FRAC_PI_4).abs() < 1e-12);
    assert_eq!(list.config, switches(false));
    let earth = adapter.plan_zones_from_bbox(level(20), level(20), None, None).unwrap();
    assert_eq!(earth.level, 20);
    assert!((earth.extent.ll.lon + std::f64::consts::PI).abs() < 1e-12);
    assert!((earth.extent.ur.lat - std::f64::consts::FRAC_PI_2).abs() < 1e-12);
    assert_eq!(earth.config, DggrsPortConfig::default());
    match adapter.plan_zones_from_bbox(level(20), level(21), None, None) {
        Err(GeoPlegmaError::RefinementLevelLimitReached { grid_name, requested, maximum }) => {
            assert_eq!(grid_name, "IVEA3H");
            assert_eq!(requested.get(), 21);
            assert_eq!(maximum.get(), 20);
        }
        other => panic!("unexpected {:?}", other),
    }

    let point = Point { inner: geo::Point::new(180.0, -90.0) };
    let at = adapter.plan_zone_from_point(level(9), level(9), point.clone(), None).unwrap();
    assert_eq!(at.level, 9);
    assert!((at.position.lon - std::f64::consts::PI).abs() < 1e-12);
    assert!((at.position.lat + std::f64::consts::FRAC_PI_2).abs() < 1e-12);
    assert!(matches!(
        adapter.plan_zone_from_point(level(9), level(10), point, None),
        Err(GeoPlegmaError::RefinementLevelLimitReached { .. })
    ));

    let depth = |n| RelativeDepth::new(n).unwrap();
    let below = adapter.plan_zones_from_parent(depth(3), &ZoneId::new_int(77), None).unwrap();
    assert_eq!((below.parent, below.depth), (77, 3));
    assert!(matches!(
        adapter.plan_zones_from_parent(depth(12), &ZoneId::new_str("x").unwrap(), None),
        Err(GeoPlegmaError::RelativeDepthLimitReached { .. })
    ));
    assert!(matches!(
        adapter.plan_zones_from_parent(depth(11), &ZoneId::new_str("x").unwrap(), None),
        Err(GeoPlegmaError::UnsupportedZoneIdFormat(_))
    ));
    let one = adapter.plan_zone_from_id(&ZoneId::new_int(5), Some(switches(false))).unwrap();
    assert_eq!(one.zone, 5);
    assert!(matches!(
        adapter.plan_zone_from_id(&ZoneId::new_hex("5").unwrap(), None),
        Err(GeoPlegmaError::UnsupportedZoneIdFormat(_))
    ));
}

#[test]
fn only_numbers_name_zones_of_the_library() {
    assert_eq!(zone_number(&ZoneId::new_int(99)).unwrap(), 99);
    assert!(matches!(
        zone_number(&ZoneId::new_hex("ff").unwrap()),
        Err(GeoPlegmaError::UnsupportedZoneIdFormat(_))
    ));
    assert!(matches!(
        zone_number(&ZoneId::new_str("A4-0-A").unwrap()),
        Err(GeoPlegmaError::UnsupportedZoneIdFormat(_))
    ));
}

#[test]
fn depth_of_the_library_as_level() {
    assert_eq!(level_of_depth("ISEA3H", 33).unwrap().get(), 33);
    match level_of_depth("ISEA3H", -1) {
        Err(GeoPlegmaError::Dggal(DggalError::DepthConversion { grid_name, depth })) => {
            assert_eq!(grid_name, "ISEA3H");
            assert_eq!(depth, -1);
        }
        other => panic!("unexpected {:?}", other),
    }
}

#[test]
fn native_library_queries() {
    let args: Vec<String> = Vec::new();
    let app = dggal::Application::new(&args);
    let context = dggal::DGGAL::new(&app);
    let adapter = DggalImpl::new(DggrsUid::ISEA3HDGGAL);
    assert_eq!(adapter.grid_name(), "ISEA3H");

    // one level above what the library reports is over the limit
    let reported = adapter.max_refinement_level(&context).unwrap();
    assert!(reported.get() > 3, "reported maximum {}", reported.get());
    let above = RefinementLevel::new(reported.get() + 1).unwrap();
    match adapter.zones_from_bbox(&context, above, None, None) {
        Err(GeoPlegmaError::RefinementLevelLimitReached { grid_name, requested, maximum }) => {
            assert_eq!(grid_name, "ISEA3H");
            assert_eq!(requested, above);
            assert_eq!(maximum, reported);
        }
        other => panic!("unexpected {:?}", other.map(|z| z.zones.len())),
    }
    let point = Point { inner: geo::Point::new(10.9, 4.9) };
    assert!(matches!(
        adapter.zone_from_point(&context, above, point, None),
        Err(GeoPlegmaError::RefinementLevelLimitReached { .. })
    ));
    assert!(matches!(
        adapter.zones_from_parent(&context, RelativeDepth::new(12).unwrap(), ZoneId::new_int(0), None),
        Err(GeoPlegmaError::RelativeDepthLimitReached { .. })
    ));
    assert!(matches!(
        adapter.zone_from_id(&context, ZoneId::new_hex("ff").unwrap(), None),
        Err(GeoPlegmaError::UnsupportedZoneIdFormat(_))
    ));

    let level = RefinementLevel::new(3).unwrap();
    let point = Point { inner: geo::Point::new(10.9, 4.9) };
    let found = adapter.zone_from_point(&context, level, point, None).unwrap().zones;
    assert_eq!(found.len(), 1);
    let zone = &found[0];
    let number = zone.id.as_u64().unwrap();
    assert!(zone.region.is_some() && zone.center.is_some() && zone.area_sqm.is_some());
    let center = zone.center.as_ref().unwrap().inner;
    assert!((center.x() - 10.9).abs() < 10.0 && (center.y() - 4.9).abs() < 10.0);
    assert!(matches!(zone.vertex_count, Some(5) | Some(6)));
    assert!(!zone.children.as_ref().unwrap().is_empty());
    assert!(!zone.neighbors.as_ref().unwrap().is_empty());

    let again = adapter
        .zone_from_id(&context, ZoneId::new_int(number), Some(switches(false)))
        .unwrap()
        .zones;
    assert_eq!(again.len(), 1);
    assert_eq!(again[0].id, zone.id);
    assert!(again[0].region.is_none() && again[0].center.is_none());
    assert!(again[0].vertex_count.is_none() && again[0].area_sqm.is_none());
    assert!(again[0].children.is_none() && again[0].neighbors.is_none());

    let below = adapter
        .zones_from_parent(&context, RelativeDepth::new(2).unwrap(), ZoneId::new_int(number), Some(switches(false)))
        .unwrap()
        .zones;
    assert!(below.len() > 1);

    let earth = adapter
        .zones_from_bbox(&context, RefinementLevel::new(1).unwrap(), None, Some(switches(false)))
        .unwrap()
        .zones;
    let rect = Rect { inner: geo::Rect::new((10.0, 4.0), (11.0, 5.0)) };
    let part = adapter
        .zones_from_bbox(&context, RefinementLevel::new(1).unwrap(), Some(rect), Some(switches(false)))
        .unwrap()
        .zones;
    assert!(!part.is_empty());
    assert!(earth.len() > part.len());

    assert_eq!(adapter.min_refinement_level().unwrap().get(), 0);
    assert_eq!(adapter.default_refinement_level().unwrap().get(), 3);
    assert_eq!(adapter.max_relative_depth().unwrap().get(), 11);
    assert_eq!(adapter.default_relative_depth().unwrap().get(), 8);
}
