use geoplegma::error::DggrsUidError;
use geoplegma::factory::DggrsAdapter;
use geoplegma::registry::{DggrsImplementation, DggrsName, DggrsUid};
use geoplegma::{get, registry};

#[test]
fn registry_bounds_are_ordered() {
    let table = registry();
    assert_eq!(table.len(), 9);
    for spec in &table {
        assert!(spec.min_refinement_level <= spec.default_refinement_level);
        assert!(spec.default_refinement_level <= spec.max_refinement_level);
        assert!(0 <= spec.default_relative_depth.get());
        assert!(spec.default_relative_depth <= spec.max_relative_depth);
    }
}

#[test]
fn registry_is_in_table_order() {
    let table = registry();
    let ids: Vec<DggrsUid> = table.iter().map(|s| s.id).collect();
    assert_eq!(
        ids,
        vec![
            DggrsUid::ISEA3HDGGRID,
            DggrsUid::IGEO7,
            DggrsUid::H3,
            DggrsUid::ISEA3HDGGAL,
            DggrsUid::IVEA3H,
            DggrsUid::ISEA9R,
            DggrsUid::IVEA9R,
            DggrsUid::RTEA3H,
            DggrsUid::RTEA9R,
        ]
    );
    for (i, spec) in table.iter().enumerate() {
        assert_eq!(spec.id.idx(), i);
        assert_eq!(DggrsUid::at(i), spec.id);
    }
}

#[test]
fn entries_hold_their_bounds() {
    let isea = DggrsUid::ISEA3HDGGRID.spec();
    assert_eq!(isea.name, DggrsName::ISEA3H);
    assert_eq!(isea.tool, DggrsImplementation::DGGRID);
    assert_eq!(isea.min_refinement_level.get(), 0);
    assert_eq!(isea.max_refinement_level.get(), 36);
    assert_eq!(isea.default_refinement_level.get(), 3);
    assert_eq!(isea.max_relative_depth.get(), 8);
    assert_eq!(isea.default_relative_depth.get(), 5);
    let h3 = DggrsUid::H3.spec();
    assert_eq!(h3.tool, DggrsImplementation::H3O);
    assert_eq!(h3.max_refinement_level.get(), 15);
    assert_eq!(h3.default_refinement_level.get(), 2);
    assert_eq!(h3.max_relative_depth.get(), 6);
    let rtea = DggrsUid::RTEA9R.spec();
    assert_eq!(rtea.tool, DggrsImplementation::DGGAL);
    assert_eq!(rtea.max_refinement_level.get(), 16);
    assert_eq!(DggrsUid::IGEO7.spec().max_refinement_level.get(), 20);
    assert_eq!(DggrsUid::IVEA3H.spec().max_relative_depth.get(), 11);
}

#[test]
fn grids_are_read_from_text() {
    assert_eq!(DggrsUid::from_str("isea3hdggrid").unwrap(), DggrsUid::ISEA3HDGGRID);
    assert_eq!(DggrsUid::from_str("ISEA3HDGGAL").unwrap(), DggrsUid::ISEA3HDGGAL);
    assert_eq!(DggrsUid::from_str("  H3 ").unwrap(), DggrsUid::H3);
    assert_eq!(DggrsUid::from_str("h3h3o").unwrap(), DggrsUid::H3);
    assert_eq!(DggrsUid::from_str("igeo7").unwrap(), DggrsUid::IGEO7);
    assert_eq!(DggrsUid::from_str("Rtea9r").unwrap(), DggrsUid::RTEA9R);
    // the family alone names the first grid of the table that has it
    assert_eq!(DggrsUid::from_str("isea3h").unwrap(), DggrsUid::ISEA3HDGGRID);
    match DggrsUid::from_str("no such grid") {
        Err(DggrsUidError::Unknown { input, candidates }) => {
            assert_eq!(input, "no such grid");
            assert_eq!(candidates.len(), 9);
            assert_eq!(candidates[0], DggrsUid::ISEA3HDGGRID);
            assert_eq!(candidates[8], DggrsUid::RTEA9R);
        }
        other => panic!("unexpected {:?}", other),
    }
}

#[test]
fn grids_are_written_with_their_tool() {
    assert_eq!(DggrsUid::ISEA3HDGGRID.to_string(), "ISEA3HDGGRID");
    assert_eq!(DggrsUid::H3.to_string(), "H3H3O");
    assert_eq!(DggrsUid::IVEA9R.to_string(), "IVEA9RDGGAL");
    assert_eq!(DggrsName::IGEO7.to_string(), "IGEO7");
    assert_eq!(DggrsImplementation::Native.to_string(), "Native");
    assert_eq!(DggrsImplementation::H3O.to_string(), "H3O");
    for spec in registry() {
        assert_eq!(DggrsUid::from_str(&spec.id.to_string()).unwrap(), spec.id);
    }
}

#[test]
fn factory_picks_the_adapter_of_the_tool() {
    assert!(matches!(get(DggrsUid::ISEA3HDGGRID), Ok(DggrsAdapter::Isea3h(_))));
    assert!(matches!(get(DggrsUid::IGEO7), Ok(DggrsAdapter::Igeo7(_))));
    assert!(matches!(get(DggrsUid::H3), Ok(DggrsAdapter::H3(_))));
    for id in [
        DggrsUid::ISEA3HDGGAL,
        DggrsUid::IVEA3H,
        DggrsUid::ISEA9R,
        DggrsUid::IVEA9R,
        DggrsUid::RTEA3H,
        DggrsUid::RTEA9R,
    ] {
        match get(id) {
            Ok(DggrsAdapter::Dggal(adapter)) => {
                assert_eq!(adapter.grid_name(), id.spec().name.to_string());
            }
            other => panic!("unexpected {:?}", other),
        }
    }
}
