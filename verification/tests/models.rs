use geoplegma::error::GeoPlegmaError;
use geoplegma::models::{HexString, RefinementLevel, RelativeDepth, Zone, ZoneId, Zones};

#[test]
fn hex_string_accepts_one_to_sixteen_hex_digits() {
    assert_eq!(HexString::new("0").unwrap().as_str(), "0");
    assert_eq!(HexString::new("0123456789abcdef").unwrap().as_str(), "0123456789abcdef");
    assert_eq!(HexString::new("ABCDEF").unwrap().as_str(), "ABCDEF");
    assert!(HexString::new("").is_err());
    assert!(HexString::new("0123456789abcdef0").is_err());
    assert!(HexString::new("xyz").is_err());
    assert!(HexString::new("12 34").is_err());
    assert_eq!(HexString::new("ff").unwrap().value(), 255);
    assert_eq!(HexString::new("ffffffffffffffff").unwrap().value(), u64::MAX);
}

#[test]
fn new_str_accepts_one_to_thirty_two_characters() {
    assert_eq!(ZoneId::new_str("a").unwrap().as_str(), Some("a"));
    let longest = "12345678901234567890123456789012";
    assert_eq!(ZoneId::new_str(longest).unwrap().as_str(), Some(longest));
    assert!(matches!(
        ZoneId::new_str(""),
        Err(GeoPlegmaError::UnsupportedZoneIdFormat(_))
    ));
    assert!(matches!(
        ZoneId::new_str("123456789012345678901234567890123"),
        Err(GeoPlegmaError::UnsupportedZoneIdFormat(_))
    ));
}

#[test]
fn new_hex_reports_invalid_hex() {
    assert!(matches!(ZoneId::new_hex("zz"), Err(GeoPlegmaError::InvalidHexId(_))));
    assert!(matches!(ZoneId::new_hex(""), Err(GeoPlegmaError::InvalidHexId(_))));
    assert_eq!(ZoneId::new_hex("0a").unwrap().as_hex().unwrap().as_str(), "0a");
}

#[test]
fn accessors_narrow_by_variant() {
    let s = ZoneId::new_str("zone").unwrap();
    let h = ZoneId::new_hex("beef").unwrap();
    let i = ZoneId::new_int(7);
    assert_eq!(s.as_str(), Some("zone"));
    assert!(s.as_hex().is_none());
    assert_eq!(s.as_u64(), None);
    assert_eq!(h.as_str(), None);
    assert_eq!(h.as_hex().map(|x| x.as_str()), Some("beef"));
    assert_eq!(h.as_u64(), None);
    assert_eq!(i.as_str(), None);
    assert!(i.as_hex().is_none());
    assert_eq!(i.as_u64(), Some(7));
}

#[test]
fn parsing_tries_decimal_then_hex_then_text() {
    assert_eq!(ZoneId::from_str("12345").unwrap(), ZoneId::new_int(12345));
    assert_eq!(ZoneId::from_str("  42\n").unwrap(), ZoneId::new_int(42));
    assert_eq!(ZoneId::from_str("007").unwrap(), ZoneId::new_int(7));
    assert_eq!(
        ZoneId::from_str("18446744073709551615").unwrap(),
        ZoneId::new_int(u64::MAX)
    );
    // one more than 64 bits hold, and too long for a hexadecimal code
    assert_eq!(
        ZoneId::from_str("18446744073709551616").unwrap(),
        ZoneId::new_str("18446744073709551616").unwrap()
    );
    assert_eq!(
        ZoneId::from_str("811fbffffffffff").unwrap(),
        ZoneId::new_hex("811fbffffffffff").unwrap()
    );
    assert_eq!(
        ZoneId::from_str("0123456789abcdef0").unwrap(),
        ZoneId::new_str("0123456789abcdef0").unwrap()
    );
    assert_eq!(ZoneId::from_str("A-1").unwrap(), ZoneId::new_str("A-1").unwrap());
    assert!(matches!(
        ZoneId::from_str("   "),
        Err(GeoPlegmaError::UnsupportedZoneIdFormat(_))
    ));
    assert!(matches!(
        ZoneId::from_str("this text is far too long to be a zone identifier"),
        Err(GeoPlegmaError::UnsupportedZoneIdFormat(_))
    ));
}

#[test]
fn display_is_the_bare_text() {
    assert_eq!(ZoneId::new_str("zone").unwrap().to_string(), "zone");
    assert_eq!(ZoneId::new_hex("0a0b").unwrap().to_string(), "0a0b");
    assert_eq!(ZoneId::new_int(0).to_string(), "0");
    assert_eq!(ZoneId::new_int(1234567890).to_string(), "1234567890");
    assert_eq!(ZoneId::new_int(u64::MAX).to_string(), "18446744073709551615");
}

#[test]
fn hex_round_trip() {
    for h in ["a", "ff", "811fbffffffffff", "0a00000000000000", "DEADBEEF", "12", "0", "f0f0f0f0f0f0f0f0"] {
        assert_eq!(ZoneId::from_str(h).unwrap().to_string(), h);
    }
}

#[test]
fn integer_round_trip() {
    for n in [0u64, 1, 9, 10, 99, 100, 65535, 1 << 40, u64::MAX - 1, u64::MAX] {
        let text = ZoneId::new_int(n).to_string();
        assert_eq!(ZoneId::from_str(&text).unwrap(), ZoneId::new_int(n));
    }
}

#[test]
fn default_zone_id_is_sixteen_zeros() {
    assert_eq!(ZoneId::default(), ZoneId::new_hex("0000000000000000").unwrap());
    let zone = Zone::default();
    assert_eq!(zone.id, ZoneId::default());
    assert!(zone.region.is_none() && zone.center.is_none() && zone.vertex_count.is_none());
    assert!(zone.children.is_none() && zone.neighbors.is_none() && zone.area_sqm.is_none());
    assert!(Zones::default().zones.is_empty());
}

#[test]
fn refinement_level_is_never_negative() {
    assert_eq!(RefinementLevel::new(0).unwrap().get(), 0);
    assert_eq!(RefinementLevel::new(17).unwrap().get(), 17);
    assert!(matches!(RefinementLevel::new(-1), Err(GeoPlegmaError::DepthBelowZero(-1))));
    assert_eq!(RefinementLevel::new_const(5).get(), 5);
    assert!(matches!(
        RelativeDepth::new(-3),
        Err(GeoPlegmaError::RelativeDepthBelowZero(-3))
    ));
    assert_eq!(RelativeDepth::new(4).unwrap().get(), 4);
    assert_eq!(RelativeDepth::new_const(2).get(), 2);
}

#[test]
fn level_plus_depth() {
    let level = RefinementLevel::new(3).unwrap();
    let depth = RelativeDepth::new(4).unwrap();
    assert_eq!(level.add(depth).unwrap().get(), 7);
    let top = RefinementLevel::new(i32::MAX).unwrap();
    assert_eq!(top.add(RelativeDepth::new(1).unwrap()).unwrap().get(), i32::MAX);
    assert_eq!(
        RefinementLevel::new(i32::MAX - 1).unwrap().add(RelativeDepth::new(1).unwrap()).unwrap().get(),
        i32::MAX
    );
}

#[test]
fn conversions_of_levels() {
    assert_eq!(RefinementLevel::from(200u8).get(), 200);
    assert_eq!(RefinementLevel::from_u8(9).get(), 9);
    assert_eq!(i32::from(RefinementLevel::new(12).unwrap()), 12);
    assert_eq!(RefinementLevel::new(255).unwrap().to_u8().unwrap(), 255);
    assert!(matches!(
        RefinementLevel::new(256).unwrap().to_u8(),
        Err(GeoPlegmaError::RefinementLevelTooHigh(_))
    ));
    assert_eq!(RelativeDepth::from(3u8).get(), 3);
    assert_eq!(i32::from(RelativeDepth::new(6).unwrap()), 6);
    assert_eq!(RelativeDepth::new(0).unwrap().to_u8().unwrap(), 0);
    assert!(matches!(
        RelativeDepth::new(1000).unwrap().to_u8(),
        Err(GeoPlegmaError::RelativeDepthTooLarge(_))
    ));
    assert_eq!(RefinementLevel::new(30).unwrap().to_string(), "30");
    assert_eq!(RelativeDepth::new(0).unwrap().to_string(), "0");
    assert!(RefinementLevel::new(2).unwrap() < RefinementLevel::new(3).unwrap());
}
