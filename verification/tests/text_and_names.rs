use jlh_maps::landuse::LanduseClass as OsmLanduseClass;
use jlh_maps::road::{OneWay, RoadClass, RoadClassCategory};
use jlh_maps::sql_types::{self, accepts_sql_type, decode_sql, SqlEnum, SqlEnumDecodeError};
use jlh_maps::text::{format_u64, parse_i64, parse_u32, trim, IntParseError};
use jlh_maps::water::WaterClass;

#[test]
fn parse_u32_follows_std() {
    for s in ["0", "42", "+7", "4294967295", "007"] {
        assert_eq!(parse_u32(s).ok(), s.parse::<u32>().ok());
    }
    assert_eq!(parse_u32("4294967296"), Err(IntParseError::PosOverflow));
    assert_eq!(parse_u32(""), Err(IntParseError::Empty));
    assert_eq!(parse_u32("-1"), Err(IntParseError::InvalidDigit));
    assert_eq!(parse_u32("+"), Err(IntParseError::InvalidDigit));
    assert_eq!(parse_u32("12a"), Err(IntParseError::InvalidDigit));
}

#[test]
fn parse_i64_follows_std() {
    for s in ["0", "-42", "+7", "9223372036854775807", "-9223372036854775808"] {
        assert_eq!(parse_i64(s).ok(), s.parse::<i64>().ok());
    }
    assert_eq!(parse_i64("9223372036854775808"), Err(IntParseError::PosOverflow));
    assert_eq!(parse_i64("-9223372036854775809"), Err(IntParseError::NegOverflow));
    assert_eq!(parse_i64("-"), Err(IntParseError::InvalidDigit));
    assert_eq!(parse_i64(" 1"), Err(IntParseError::InvalidDigit));
}

#[test]
fn format_u64_renders_decimal() {
    assert_eq!(format_u64(0), "0");
    assert_eq!(format_u64(1234567890123), "1234567890123");
    assert_eq!(format_u64(u64::MAX), u64::MAX.to_string());
}

#[test]
fn trim_matches_str_trim() {
    for s in ["  a b  ", "\t\nx\u{3000}", "", "   ", "\u{85}T\u{a0}", "no-space"] {
        assert_eq!(trim(s), s.trim());
    }
}

#[test]
fn road_class_names_round_trip() {
    assert_eq!(RoadClass::from_name("living_street"), Some(RoadClass::LivingStreet));
    assert_eq!(RoadClass::from_name("track_grade3"), Some(RoadClass::TrackGrade3));
    assert_eq!(RoadClass::Motorway.name(), "motorway");
    assert_eq!(RoadClass::from_name("Motorway"), None);
    assert_eq!(RoadClassCategory::from_name("paths_unsuitable_for_cars"), Some(RoadClassCategory::PathsUnsuitableForCars));
}

#[test]
fn road_class_category_groups() {
    assert_eq!(RoadClass::Trunk.category(), RoadClassCategory::MajorRoads);
    assert_eq!(RoadClass::Busway.category(), RoadClassCategory::MinorRoads);
    assert_eq!(RoadClass::TertiaryLink.category(), RoadClassCategory::HighwayLinks);
    assert_eq!(RoadClass::TrackGrade5.category(), RoadClassCategory::VerySmallRoads);
    assert_eq!(RoadClass::Steps.category(), RoadClassCategory::PathsUnsuitableForCars);
    assert_eq!(RoadClass::Unknown.category(), RoadClassCategory::Unknown);
}

#[test]
fn water_class_names() {
    assert_eq!(WaterClass::from_name("wetland_wet_meadow"), Some(WaterClass::WetlandWetMeadow));
    assert_eq!(WaterClass::Riverbank.name(), "riverbank");
    assert_eq!(WaterClass::from_name("lake"), None);
    let _ = OsmLanduseClass::Forest;
    let _ = OneWay::Bidirectional;
}

#[test]
fn sql_enum_labels_and_decoding() {
    assert_eq!(sql_types::RoadClass::motorway_link.sql_label(), "motorway_link");
    assert_eq!(sql_types::RoadClass::db_type_name(), "road_class");
    assert_eq!(sql_types::RoadOneway::label_count(), 3);
    let decoded: sql_types::RoadClassCategory = decode_sql(b"highway_links").unwrap();
    assert_eq!(decoded, sql_types::RoadClassCategory::highway_links);
    match decode_sql::<sql_types::WaterClass>(b"lake") {
        Err(SqlEnumDecodeError::InvalidVariant(s)) => assert_eq!(s, "lake"),
        other => panic!("unexpected {other:?}"),
    }
    assert!(matches!(decode_sql::<sql_types::WaterClass>(&[0xff, 0xfe]), Err(SqlEnumDecodeError::InvalidUtf8)));
}

#[test]
fn sql_enum_accepts_matching_type_only() {
    let labels: Vec<String> = ["forwards_only", "backwards_only", "bidirectional"].iter().map(|s| s.to_string()).collect();
    assert!(accepts_sql_type::<sql_types::RoadOneway>("road_oneway", Some(&labels)));
    assert!(!accepts_sql_type::<sql_types::RoadOneway>("road_class", Some(&labels)));
    assert!(!accepts_sql_type::<sql_types::RoadOneway>("road_oneway", None));
    let fewer: Vec<String> = labels[..2].to_vec();
    assert!(!accepts_sql_type::<sql_types::RoadOneway>("road_oneway", Some(&fewer)));
    let unknown: Vec<String> = ["forwards_only", "backwards_only", "sideways"].iter().map(|s| s.to_string()).collect();
    assert!(!accepts_sql_type::<sql_types::RoadOneway>("road_oneway", Some(&unknown)));
}

#[test]
fn sql_model_conversions_round_trip() {
    let sql: sql_types::RoadClass = RoadClass::PrimaryLink.into();
    assert_eq!(sql, sql_types::RoadClass::primary_link);
    assert_eq!(RoadClass::from(sql), RoadClass::PrimaryLink);
    let one: sql_types::RoadOneway = OneWay::BackwardsOnly.into();
    assert_eq!(one, sql_types::RoadOneway::backwards_only);
    assert_eq!(OneWay::from(sql_types::RoadOneway::forwards_only), OneWay::ForwardsOnly);
    let w: sql_types::WaterClass = WaterClass::WetlandBog.into();
    assert_eq!(WaterClass::from(w), WaterClass::WetlandBog);
}
