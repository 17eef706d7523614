use geoplegma::adapters::dggrid::common::{
    ingest, join_path, metafile, parse_aigen_to_zones_map, parse_id_list, paths_for, setup,
};
use geoplegma::adapters::dggrid::dggrid::DggridAdapter;
use geoplegma::adapters::dggrid::igeo7::{
    get_refinement_level_from_z7_zone_id, igeo7_metafile, z7_level_of, Igeo7Impl,
};
use geoplegma::adapters::dggrid::isea3h::{
    get_refinement_level_from_z3_zone_id, isea3h_metafile, z3_level_of, Isea3hImpl,
};
use geoplegma::adapters::dggrid::request::{answer, bbox, point_line, DggridGrid};
use geoplegma::error::{DggridError, GeoPlegmaError};
use geoplegma::geometry::{corner_count, whole_earth_bbox, Point, Rect};
use geoplegma::models::{RefinementLevel, RelativeDepth, ZoneId};
use geoplegma::ports::DggrsPortConfig;

fn config(on: bool) -> DggrsPortConfig {
    DggrsPortConfig {
        region: on,
        center: on,
        vertex_count: on,
        children: on,
        neighbors: on,
        area_sqm: on,
        densify: on,
    }
}

const AIGEN: &str = "0a00000000000000 10.0 20.0\n9.0 19.0\n11.0 19.0\n11.0 21.0\n9.0 21.0\n9.0 19.0\nEND\n0b00000000000000 -1.5 2.5\n-2 2\n-1 2\n-1 3\n-2 2\nEND\nEND\n";
const CHILDREN: &str = "0a00000000000000 0a40000000000000 0a80000000000000\n\n0b00000000000000 0b40000000000000\n";
const NEIGHBORS: &str = "0a00000000000000 0b00000000000000\n";

#[test]
fn z3_resolution_of_ten_digit_groups() {
    // base cell 5, digits 0 1 2 0 1 2 0 1 2, then padding
    let id = ZoneId::new_hex("51861bffffffffff").unwrap();
    assert_eq!(get_refinement_level_from_z3_zone_id(&id).unwrap().get(), 9);
    assert_eq!(z3_level_of(0x51861bffffffffff), 9);
}

#[test]
fn z3_resolution_edges() {
    // no padding digit at all
    let full = ZoneId::new_hex("b000000000000000").unwrap();
    assert_eq!(get_refinement_level_from_z3_zone_id(&full).unwrap().get(), 30);
    // padding from the first digit on
    let none = ZoneId::new_hex("0fffffffffffffff").unwrap();
    assert_eq!(get_refinement_level_from_z3_zone_id(&none).unwrap().get(), 0);
    // a short code has leading zeros: base cell 0, first digit 0
    let short = ZoneId::new_hex("ff").unwrap();
    assert_eq!(get_refinement_level_from_z3_zone_id(&short).unwrap().get(), 26);
    // base cell 12
    let base = ZoneId::new_hex("c000000000000000").unwrap();
    assert!(matches!(
        get_refinement_level_from_z3_zone_id(&base),
        Err(GeoPlegmaError::Dggrid(DggridError::InvalidZ3Format(_)))
    ));
    assert!(matches!(
        get_refinement_level_from_z3_zone_id(&ZoneId::new_int(5)),
        Err(GeoPlegmaError::Dggrid(DggridError::InvalidZ3Format(_)))
    ));
    assert!(matches!(
        get_refinement_level_from_z3_zone_id(&ZoneId::new_str("zone").unwrap()),
        Err(GeoPlegmaError::Dggrid(DggridError::InvalidZ3Format(_)))
    ));
}

#[test]
fn z7_resolution() {
    // base cell 3, digits 1 2 3 4, then padding
    assert_eq!(get_refinement_level_from_z7_zone_id("329cffffffffffff"), Ok(4));
    assert_eq!(get_refinement_level_from_z7_zone_id("0x329cffffffffffff"), Ok(4));
    assert_eq!(get_refinement_level_from_z7_zone_id("0X329CFFFFFFFFFFFF"), Ok(4));
    assert_eq!(get_refinement_level_from_z7_zone_id("0000000000000000"), Ok(20));
    assert_eq!(get_refinement_level_from_z7_zone_id("0fffffffffffffff"), Ok(0));
    assert_eq!(z7_level_of(0x329cffffffffffff), 4);
    assert_eq!(
        get_refinement_level_from_z7_zone_id("c000000000000000"),
        Err("Invalid base cell 12 (>11)".to_string())
    );
    assert_eq!(
        get_refinement_level_from_z7_zone_id("not hex"),
        Err("Invalid hex for Z7 INT64".to_string())
    );
    assert!(get_refinement_level_from_z7_zone_id("").is_err());
    assert!(get_refinement_level_from_z7_zone_id("0x").is_err());
    assert!(get_refinement_level_from_z7_zone_id("11111111111111111").is_err());
}

#[test]
fn paths_are_derived_from_the_token() {
    let p = paths_for("/work", "abc");
    assert_eq!(p.stem, "/work/abc");
    assert_eq!(p.meta, "/work/abc.meta");
    assert_eq!(p.aigen, "/work/abc.gen");
    assert_eq!(p.children, "/work/abc.chd");
    assert_eq!(p.neighbor, "/work/abc.nbr");
    assert_eq!(p.bbox, "/work/abc.bbox");
    assert_eq!(p.input, "/work/abc.txt");
    assert_eq!(
        p.all(),
        vec![
            "/work/abc.meta",
            "/work/abc.gen",
            "/work/abc.chd",
            "/work/abc.nbr",
            "/work/abc.bbox",
            "/work/abc.txt"
        ]
    );
    assert_eq!(join_path("", "abc"), "abc");
    assert_eq!(join_path("/work/", "abc"), "/work/abc");
    assert_eq!(join_path("rel", "abc"), "rel/abc");
}

#[test]
fn setup_draws_a_fresh_token() {
    let (code, paths) = setup("/tmp");
    assert_eq!(code.chars().count(), 16);
    assert!(code.chars().all(|c| c.is_ascii_alphanumeric()));
    assert_eq!(paths.meta, format!("/tmp/{}.meta", code));
    assert_eq!(paths.input, format!("/tmp/{}.txt", code));
    let (other, _) = setup("/tmp");
    assert_ne!(code, other);
}

#[test]
fn metafile_with_everything() {
    let level = RefinementLevel::new(7).unwrap();
    let text = metafile(&level, "/w/cells", "/w/chd", "/w/nbr", &config(true));
    assert_eq!(
        text,
        "longitude_wrap_mode UNWRAP_EAST\n\
         cell_output_type AIGEN\n\
         unwrap_points FALSE\n\
         output_cell_label_type OUTPUT_ADDRESS_TYPE\n\
         precision 7\n\
         dggs_res_spec 7\n\
         z3_invalid_digit 3\n\
         output_file_type NONE\n\
         cell_output_file_name /w/cells\n\
         neighbor_output_type TEXT\n\
         neighbor_output_file_name /w/nbr\n\
         children_output_type TEXT\n\
         children_output_file_name /w/chd\n\
         densification 50\n"
    );
}

#[test]
fn metafile_with_nothing_optional() {
    let level = RefinementLevel::new(12).unwrap();
    let text = metafile(&level, "cells", "chd", "nbr", &config(false));
    assert_eq!(
        text,
        "longitude_wrap_mode UNWRAP_EAST\n\
         cell_output_type AIGEN\n\
         unwrap_points FALSE\n\
         output_cell_label_type OUTPUT_ADDRESS_TYPE\n\
         precision 7\n\
         dggs_res_spec 12\n\
         z3_invalid_digit 3\n\
         output_file_type NONE\n\
         cell_output_file_name cells\n"
    );
}

#[test]
fn grid_directives() {
    let mut text = String::from("x\n");
    isea3h_metafile(&mut text);
    assert_eq!(text, "x\ndggs_type ISEA3H\ndggs_aperture 3\noutput_address_type Z3\n");
    let mut text = String::new();
    igeo7_metafile(&mut text);
    assert_eq!(text, "dggs_type IGEO7\ndggs_aperture 7\noutput_address_type Z7\n");
}

#[test]
fn bbox_clip_region() {
    let rect = Rect { inner: geo::Rect::new((-77.0, 39.0), (-76.0, 40.0)) };
    assert_eq!(
        bbox(&rect),
        "1 -76.5000000 39.5000000\n\
         -77.0000000 39.0000000\n\
         -76.0000000 39.0000000\n\
         -76.0000000 40.0000000\n\
         -77.0000000 40.0000000\n\
         -77.0000000 39.0000000\n\
         END\n\
         END\n"
    );
    let earth = whole_earth_bbox();
    assert_eq!(earth.inner.min().x, -180.0);
    assert_eq!(earth.inner.min().y, -90.0);
    assert_eq!(earth.inner.max().x, 180.0);
    assert_eq!(earth.inner.max().y, 90.0);
}

#[test]
fn point_input_is_latitude_then_longitude() {
    let point = Point { inner: geo::Point::new(10.9, 4.9) };
    assert_eq!(point_line(&point), "4.9 10.9\n");
}

#[test]
fn id_list_is_read_line_by_line() {
    let lists = parse_id_list(CHILDREN).unwrap();
    assert_eq!(lists.len(), 2);
    assert_eq!(lists[0].key, ZoneId::new_hex("0a00000000000000").unwrap());
    assert_eq!(
        lists[0].values,
        vec![
            ZoneId::new_hex("0a40000000000000").unwrap(),
            ZoneId::new_hex("0a80000000000000").unwrap()
        ]
    );
    assert_eq!(lists[1].key, ZoneId::new_hex("0b00000000000000").unwrap());
    assert_eq!(lists[1].values, vec![ZoneId::new_hex("0b40000000000000").unwrap()]);
    assert!(parse_id_list("").unwrap().is_empty());
    let alone = parse_id_list("  0a \r\n").unwrap();
    assert_eq!(alone.len(), 1);
    assert!(alone[0].values.is_empty());
}

#[test]
fn id_list_errors() {
    match parse_id_list("0a 0b\n0c\n\n0a 0d\n") {
        Err(GeoPlegmaError::Dggrid(DggridError::Malformed { msg })) => {
            assert_eq!(msg, "duplicate key on line 4")
        }
        other => panic!("unexpected {:?}", other),
    }
    assert!(matches!(parse_id_list("0a xyz\n"), Err(GeoPlegmaError::InvalidHexId(_))));
    assert!(matches!(
        parse_id_list("00000000000000000 0a\n"),
        Err(GeoPlegmaError::InvalidHexId(_))
    ));
    // a bad token on a later line is found before a duplicate on an earlier one is
    assert!(matches!(
        parse_id_list("0a\nzz\n0a\n"),
        Err(GeoPlegmaError::InvalidHexId(_))
    ));
}

#[test]
fn aigen_is_read_cell_by_cell() {
    let zones = parse_aigen_to_zones_map(AIGEN).unwrap();
    assert_eq!(zones.len(), 2);
    assert_eq!(zones[0].id, ZoneId::new_hex("0a00000000000000").unwrap());
    assert_eq!(zones[1].id, ZoneId::new_hex("0b00000000000000").unwrap());
    let center = zones[0].center.as_ref().unwrap().inner;
    assert_eq!((center.x(), center.y()), (10.0, 20.0));
    let ring = zones[0].region.as_ref().unwrap().inner.exterior();
    assert_eq!(ring.0.len(), 5);
    assert_eq!((ring.0[1].x, ring.0[1].y), (11.0, 19.0));
    assert_eq!(ring.0[0], ring.0[4]);
    let other = zones[1].region.as_ref().unwrap().inner.exterior();
    assert_eq!(other.0.len(), 4);
    assert!(zones[0].vertex_count.is_none() && zones[0].area_sqm.is_none());
    assert!(zones[0].children.is_none() && zones[0].neighbors.is_none());
}

#[test]
fn aigen_edge_cases() {
    assert!(parse_aigen_to_zones_map("").unwrap().is_empty());
    assert!(parse_aigen_to_zones_map("END\nEND\n").unwrap().is_empty());
    // vertices before any header are passed over; a cell without END is not given
    assert!(parse_aigen_to_zones_map("1 2\n0a 1 2\n3 4\n").unwrap().is_empty());
    // fewer than two vertices give no region
    let zones = parse_aigen_to_zones_map("0a 1 2\n3 4\nEND\n").unwrap();
    assert_eq!(zones.len(), 1);
    assert!(zones[0].region.is_none());
    assert!(zones[0].center.is_some());
    assert!(matches!(
        parse_aigen_to_zones_map("xyz 1 2\nEND\n"),
        Err(GeoPlegmaError::InvalidHexId(_))
    ));
    assert!(matches!(
        parse_aigen_to_zones_map("0a one 2\nEND\n"),
        Err(GeoPlegmaError::Float(_))
    ));
    assert!(matches!(
        parse_aigen_to_zones_map("0a 1 2\n3 four\nEND\n"),
        Err(GeoPlegmaError::Float(_))
    ));
    match parse_aigen_to_zones_map("0a 1 2\n3 4\n1 2 3 4\nEND\n") {
        Err(GeoPlegmaError::Dggrid(DggridError::Malformed { msg })) => {
            assert_eq!(msg, "unexpected tokens on line 3")
        }
        other => panic!("unexpected {:?}", other),
    }
    match parse_aigen_to_zones_map("STOP\n") {
        Err(GeoPlegmaError::Dggrid(DggridError::Malformed { msg })) => {
            assert_eq!(msg, "unexpected tokens on line 1")
        }
        other => panic!("unexpected {:?}", other),
    }
}

#[test]
fn ingest_with_everything() {
    let zones = ingest(AIGEN, CHILDREN, NEIGHBORS, &config(true)).unwrap().zones;
    assert_eq!(zones.len(), 2);
    let a = &zones[0];
    assert_eq!(a.id.to_string(), "0a00000000000000");
    assert!(a.region.is_some() && a.center.is_some());
    assert_eq!(a.vertex_count, Some(4));
    assert_eq!(a.children.as_ref().unwrap().len(), 2);
    assert_eq!(a.neighbors.as_ref().unwrap()[0].to_string(), "0b00000000000000");
    let area = f64::from_bits(a.area_sqm.unwrap().bits);
    // two degrees by two degrees near 20 degrees north
    assert!(area > 4.0e10 && area < 5.0e10, "area {}", area);
    let b = &zones[1];
    assert_eq!(b.vertex_count, Some(3));
    assert_eq!(b.children.as_ref().unwrap().len(), 1);
    // no line of neighbours is about this cell
    assert!(b.neighbors.is_none());
}

#[test]
fn ingest_gates_every_field() {
    let zones = ingest(AIGEN, CHILDREN, NEIGHBORS, &config(false)).unwrap().zones;
    assert_eq!(zones.len(), 2);
    for z in &zones {
        assert!(z.region.is_none() && z.center.is_none() && z.vertex_count.is_none());
        assert!(z.children.is_none() && z.neighbors.is_none() && z.area_sqm.is_none());
    }
    let mut only_count = config(false);
    only_count.vertex_count = true;
    let zones = ingest(AIGEN, "not read", "not read", &only_count).unwrap().zones;
    assert_eq!(zones[0].vertex_count, Some(4));
    assert!(zones[0].region.is_none() && zones[0].center.is_none());
    assert!(zones[0].area_sqm.is_none() && zones[0].children.is_none());
}

#[test]
fn ingest_reports_the_first_file_refused() {
    assert!(matches!(
        ingest("0a 1\nbad line here now\n", "zz", "zz", &config(true)),
        Err(GeoPlegmaError::Dggrid(DggridError::Malformed { .. }))
    ));
    assert!(matches!(
        ingest(AIGEN, "zz", NEIGHBORS, &config(true)),
        Err(GeoPlegmaError::InvalidHexId(_))
    ));
    assert!(matches!(
        ingest(AIGEN, CHILDREN, "0a\n0a\n", &config(true)),
        Err(GeoPlegmaError::Dggrid(DggridError::Malformed { .. }))
    ));
}

#[test]
fn corner_count_drops_the_closing_vertex() {
    assert_eq!(corner_count(0), 0);
    assert_eq!(corner_count(1), 0);
    assert_eq!(corner_count(7), 6);
    assert_eq!(corner_count(usize::MAX), u32::MAX);
}

#[test]
fn bbox_query_above_the_maximum_is_refused() {
    let adapter = Isea3hImpl::new("dggrid".to_string(), "/tmp".to_string());
    let max = adapter.max_refinement_level().unwrap();
    assert_eq!(max.get(), 36);
    let above = RefinementLevel::new(max.get() + 1).unwrap();
    match adapter.plan_zones_from_bbox(above, None, None) {
        Err(GeoPlegmaError::RefinementLevelLimitReached { grid_name, requested, maximum }) => {
            assert_eq!(grid_name, "ISEA3H");
            assert_eq!(requested, above);
            assert_eq!(maximum, max);
        }
        other => panic!("unexpected {:?}", other),
    }
    let igeo = Igeo7Impl::default();
    let above = RefinementLevel::new(21).unwrap();
    assert!(matches!(
        igeo.plan_zones_from_bbox(above, None, None),
        Err(GeoPlegmaError::RefinementLevelLimitReached { .. })
    ));
    let point = Point { inner: geo::Point::new(1.0, 2.0) };
    assert!(matches!(
        igeo.plan_zone_from_point(above, point, None),
        Err(GeoPlegmaError::RefinementLevelLimitReached { .. })
    ));
}

#[test]
fn bbox_request() {
    let adapter = Isea3hImpl::new("dggrid".to_string(), "/work".to_string());
    let level = RefinementLevel::new(4).unwrap();
    let rect = Rect { inner: geo::Rect::new((-77.0, 39.0), (-76.0, 40.0)) };
    let req = adapter.plan_zones_from_bbox(level, Some(rect), Some(config(false))).unwrap();
    let stem = req.paths.stem.clone();
    assert!(stem.starts_with("/work/") && stem.len() == 6 + 16);
    assert_eq!(
        req.metafile,
        format!(
            "longitude_wrap_mode UNWRAP_EAST\ncell_output_type AIGEN\nunwrap_points FALSE\n\
             output_cell_label_type OUTPUT_ADDRESS_TYPE\nprecision 7\ndggs_res_spec 4\n\
             z3_invalid_digit 3\noutput_file_type NONE\ncell_output_file_name {stem}\n\
             dggs_type ISEA3H\ndggs_aperture 3\noutput_address_type Z3\n\
             clip_subset_type AIGEN\nclip_region_files {stem}.bbox\n"
        )
    );
    assert!(req.bbox_file.unwrap().starts_with("1 -76.5000000 39.5000000\n"));
    assert!(req.input_file.is_none());
    assert_eq!(req.config, config(false));
    let whole = adapter.plan_zones_from_bbox(level, None, None).unwrap();
    assert!(whole.bbox_file.is_none());
    assert!(whole.metafile.ends_with("output_address_type Z3\n"));
    assert_eq!(whole.config, DggrsPortConfig::default());
}

#[test]
fn point_request() {
    let adapter = Igeo7Impl::new("dggrid".to_string(), "".to_string());
    let level = RefinementLevel::new(6).unwrap();
    let point = Point { inner: geo::Point::new(10.9, 4.9) };
    let req = adapter.plan_zone_from_point(level, point, Some(config(false))).unwrap();
    let stem = req.paths.stem.clone();
    assert_eq!(stem.len(), 16);
    assert!(req.metafile.ends_with(&format!(
        "dggs_type IGEO7\ndggs_aperture 7\noutput_address_type Z7\n\
         dggrid_operation TRANSFORM_POINTS\ninput_address_type GEO\ninput_file_name {stem}.txt\n"
    )));
    assert_eq!(req.input_file.as_deref(), Some("4.9 10.9\n"));
    assert!(req.bbox_file.is_none());
}

#[test]
fn parent_request() {
    let adapter = DggridAdapter::new("dggrid".to_string(), "/w".to_string());
    let parent = ZoneId::new_hex("51861bffffffffff").unwrap();
    let depth = RelativeDepth::new(2).unwrap();
    let req = adapter
        .plan_zones_from_parent(DggridGrid::Isea3h, depth, &parent, Some(config(false)))
        .unwrap();
    assert!(req.metafile.contains("dggs_res_spec 11\n"));
    assert!(req.metafile.ends_with(
        "clip_subset_type COARSE_CELLS\nclip_cell_res 9\nclip_cell_densification 50\n\
         clip_cell_addresses \"51861bffffffffff\"\ninput_address_type Z3\n"
    ));
    assert!(req.input_file.is_none() && req.bbox_file.is_none());

    let too_deep = RelativeDepth::new(9).unwrap();
    assert!(matches!(
        adapter.plan_zones_from_parent(DggridGrid::Isea3h, too_deep, &parent, None),
        Err(GeoPlegmaError::RelativeDepthLimitReached { .. })
    ));
    // resolution 20 plus depth 1 is above the maximum of the aperture 7 grid
    let deepest = ZoneId::new_hex("0000000000000000").unwrap();
    let one = RelativeDepth::new(1).unwrap();
    match adapter.plan_zones_from_parent(DggridGrid::Igeo7, one, &deepest, None) {
        Err(GeoPlegmaError::RefinementLevelPlusRelativeDepthLimitReached {
            requested,
            maximum,
            ..
        }) => {
            assert_eq!(requested, one);
            assert_eq!(maximum.get(), 20);
        }
        other => panic!("unexpected {:?}", other),
    }
    assert!(matches!(
        adapter.plan_zones_from_parent(DggridGrid::Isea3h, one, &ZoneId::new_int(1), None),
        Err(GeoPlegmaError::Dggrid(DggridError::InvalidZ3Format(_)))
    ));
    assert!(matches!(
        adapter.plan_zones_from_parent(
            DggridGrid::Igeo7,
            one,
            &ZoneId::new_str("zone").unwrap(),
            None
        ),
        Err(GeoPlegmaError::Dggrid(DggridError::InvalidZ7Format(_)))
    ));
}

#[test]
fn id_request() {
    let adapter = Isea3hImpl::default();
    assert_eq!(adapter.adapter.executable, "dggrid");
    let id = ZoneId::new_hex("51861bffffffffff").unwrap();
    let req = adapter.plan_zone_from_id(&id, Some(config(false))).unwrap();
    let stem = req.paths.stem.clone();
    assert!(req.metafile.contains("dggs_res_spec 9\n"));
    assert!(req.metafile.ends_with(&format!(
        "input_file_name {stem}.txt\ndggrid_operation TRANSFORM_POINTS\ninput_address_type Z3\n"
    )));
    assert_eq!(req.input_file.as_deref(), Some("51861bffffffffff\n"));
    assert!(matches!(
        adapter.plan_zone_from_id(&ZoneId::new_hex("c000000000000000").unwrap(), None),
        Err(GeoPlegmaError::Dggrid(DggridError::InvalidZ3Format(_)))
    ));
}

#[test]
fn dggrid_capabilities_come_from_the_registry() {
    let isea = Isea3hImpl::default();
    assert_eq!(isea.min_refinement_level().unwrap().get(), 0);
    assert_eq!(isea.default_refinement_level().unwrap().get(), 3);
    assert_eq!(isea.max_relative_depth().unwrap().get(), 8);
    assert_eq!(isea.default_relative_depth().unwrap().get(), 5);
    let igeo = Igeo7Impl::default();
    assert_eq!(igeo.max_refinement_level().unwrap().get(), 20);
    assert_eq!(igeo.default_refinement_level().unwrap().get(), 2);
    assert_eq!(igeo.max_relative_depth().unwrap().get(), 5);
    assert_eq!(igeo.default_relative_depth().unwrap().get(), 3);
}

#[test]
fn single_queries_give_exactly_one_zone() {
    let adapter = Isea3hImpl::new("dggrid".to_string(), "/tmp".to_string());
    let id = ZoneId::new_hex("51861bffffffffff").unwrap();
    let single = adapter.plan_zone_from_id(&id, Some(config(false))).unwrap();
    assert!(single.single);
    let one = "51861bffffffffff 1 2\n0 0\n1 0\n1 1\n0 0\nEND\nEND\n";
    let zones = answer(&single, one, "", "").unwrap().zones;
    assert_eq!(zones.len(), 1);
    assert_eq!(zones[0].id, id);
    assert!(matches!(
        answer(&single, "END\n", "", ""),
        Err(GeoPlegmaError::Dggrid(DggridError::MissingZoneData))
    ));
    assert!(matches!(
        answer(&single, AIGEN, "", ""),
        Err(GeoPlegmaError::Dggrid(DggridError::Malformed { .. }))
    ));
    assert!(matches!(
        answer(&single, "zz 1 2\n", "", ""),
        Err(GeoPlegmaError::InvalidHexId(_))
    ));

    let level = RefinementLevel::new(4).unwrap();
    let point = Point { inner: geo::Point::new(1.0, 2.0) };
    assert!(adapter.plan_zone_from_point(level, point, None).unwrap().single);
    let many = adapter.plan_zones_from_bbox(level, None, Some(config(false))).unwrap();
    assert!(!many.single);
    assert_eq!(answer(&many, AIGEN, "", "").unwrap().zones.len(), 2);
    assert!(answer(&many, "", "", "").unwrap().zones.is_empty());
}

#[test]
fn coordinates_that_are_no_numbers_are_refused() {
    for text in [
        "0a NaN 2\nEND\n",
        "0a 1 inf\nEND\n",
        "0a 1 2\n3 NaN\n4 5\n6 7\nEND\n",
        "0a 1 2\n-inf 3\n4 5\n6 7\nEND\n",
        "0a 1 2\n1e300 3\n4 5\n6 7\nEND\n",
    ] {
        assert!(
            matches!(
                ingest(text, "", "", &config(true)),
                Err(GeoPlegmaError::Dggrid(DggridError::Malformed { .. }))
            ),
            "{:?}",
            text
        );
    }
    match parse_aigen_to_zones_map("0a 1 2\n3 4\nNaN 5\nEND\n") {
        Err(GeoPlegmaError::Dggrid(DggridError::Malformed { msg })) => {
            assert_eq!(msg, "coordinate out of range on line 3")
        }
        other => panic!("unexpected {:?}", other),
    }
    // a vertex before any header is not read at all
    assert!(parse_aigen_to_zones_map("NaN NaN\n").unwrap().is_empty());
    // the limit itself is within
    let zones = ingest("0a 1 2\n1000000 -1000000\n4 5\n6 7\nEND\n", "", "", &config(true))
        .unwrap()
        .zones;
    assert_eq!(zones[0].vertex_count, Some(3));
}
