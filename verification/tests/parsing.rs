use jlh_maps::features::{Building, Geometry, Polygon, Road, Shape, Water};
use jlh_maps::parser::{
    DefaultParser, Field, FieldKind, FromStrParser, I32Parser, NumericValue, OptionParser, Parser,
    Record, RecordParseError, ShapeKind, StringParser, TfBoolParser, U32Parser,
};
use jlh_maps::road::{OneWay, RoadClass};
use jlh_maps::water::WaterClass;
use jlh_maps::features::parse_polyline;
use jlh_maps::parser::OneWayParser;

fn text(s: &str) -> Field {
    Field { kind: FieldKind::Character(Some(s.to_string())), debug_text: format!("Character(Some({s:?}))") }
}

fn blank_text() -> Field {
    Field { kind: FieldKind::Character(None), debug_text: "Character(None)".to_string() }
}

fn number(v: f64) -> Field {
    Field {
        kind: FieldKind::Numeric(Some(NumericValue { as_i32: v as i32, as_u32: v as u32, non_negative: v >= 0.0, text: v.to_string() })),
        debug_text: format!("Numeric(Some({v:?}))"),
    }
}

fn blank_number() -> Field {
    Field { kind: FieldKind::Numeric(None), debug_text: "Numeric(None)".to_string() }
}

fn record(fields: &[(&str, Field)]) -> Record {
    let mut r = Record::new();
    for (name, value) in fields {
        r.insert(name.to_string(), value.clone());
    }
    r
}

#[test]
fn string_parser_trims_text() {
    assert_eq!(StringParser::parse("ref", &text("  B 27 ")), Ok("B 27".to_string()));
    assert_eq!(
        StringParser::parse("ref", &number(3.0)),
        Err(RecordParseError::UnexpectedType { field: "ref", value: "Numeric(Some(3.0))".to_string() })
    );
}

#[test]
fn number_parsers() {
    assert_eq!(I32Parser::parse("layer", &number(-2.7)), Ok(-2));
    assert_eq!(U32Parser::parse("maxspeed", &number(50.0)), Ok(50));
    assert_eq!(
        U32Parser::parse("maxspeed", &number(-5.0)),
        Err(RecordParseError::InvalidField { field: "maxspeed", value: "-5".to_string() })
    );
    assert_eq!(
        I32Parser::parse("layer", &blank_text()),
        Err(RecordParseError::UnexpectedType { field: "layer", value: "Character(None)".to_string() })
    );
}

#[test]
fn flag_parsers() {
    assert_eq!(TfBoolParser::parse("bridge", &text("T")), Ok(true));
    assert_eq!(TfBoolParser::parse("bridge", &text(" F ")), Ok(false));
    assert_eq!(TfBoolParser::parse("bridge", &text("")), Ok(false));
    assert_eq!(TfBoolParser::parse("bridge", &blank_text()), Ok(false));
    assert_eq!(
        TfBoolParser::parse("bridge", &text("yes")),
        Err(RecordParseError::InvalidField { field: "bridge", value: "yes".to_string() })
    );
    assert_eq!(<DefaultParser<TfBoolParser, true>>::parse("tunnel", &blank_text()), Ok(true));
    assert_eq!(<DefaultParser<TfBoolParser, true>>::parse("tunnel", &text("F")), Ok(false));
}

#[test]
fn one_way_parser_directions() {
    assert_eq!(OneWayParser::parse("oneway", &text("F")), Ok(OneWay::ForwardsOnly));
    assert_eq!(OneWayParser::parse("oneway", &text("T")), Ok(OneWay::BackwardsOnly));
    assert_eq!(OneWayParser::parse("oneway", &text(" B")), Ok(OneWay::Bidirectional));
    assert_eq!(OneWayParser::parse("oneway", &blank_text()), Ok(OneWay::Bidirectional));
    assert!(matches!(OneWayParser::parse("oneway", &text("X")), Err(RecordParseError::InvalidField { .. })));
}

#[test]
fn from_str_and_option_parsers() {
    assert_eq!(<FromStrParser<i64>>::parse("osm_id", &text(" 123456789012 ")), Ok(123456789012));
    assert_eq!(
        <FromStrParser<i64>>::parse("osm_id", &text("12x")),
        Err(RecordParseError::InvalidField { field: "osm_id", value: "12x".to_string() })
    );
    assert_eq!(<FromStrParser<RoadClass>>::parse("fclass", &text("cycleway")), Ok(RoadClass::Cycleway));
    assert_eq!(<OptionParser<U32Parser>>::parse("maxspeed", &blank_number()), Ok(None));
    assert_eq!(<OptionParser<U32Parser>>::parse("maxspeed", &number(30.0)), Ok(Some(30)));
}

#[test]
fn record_lookup_and_insert() {
    let mut r = record(&[("a", text("1")), ("b", text("2"))]);
    assert_eq!(r.get("b"), Some(&text("2")));
    assert_eq!(r.get("c"), None);
    assert_eq!(r.insert("a".to_string(), text("3")), Some(text("1")));
    assert_eq!(r.get("a"), Some(&text("3")));
    assert_eq!(r.required::<I32Parser>("missing"), Err(RecordParseError::MissingField { field: "missing" }));
    assert_eq!(r.optional::<I32Parser>("missing"), Ok(None));
    assert_eq!(r.optional::<StringParser>("b"), Ok(Some("2".to_string())));
}

fn road_record() -> Record {
    record(&[
        ("osm_id", text("4711")),
        ("fclass", text("residential")),
        ("ref", blank_text()),
        ("oneway", text("F")),
        ("maxspeed", number(30.0)),
        ("layer", number(0.0)),
        ("bridge", text("T")),
        ("tunnel", text("F")),
    ])
}

#[test]
fn road_from_shape_and_record() {
    let shape = Shape::Polyline { parts: vec![vec![(1, 2), (3, 4)]] };
    let road = Road::from_shapefile_item(&shape, &road_record()).unwrap();
    assert_eq!(road.osm_id, 4711);
    assert_eq!(road.class, RoadClass::Residential);
    assert_eq!(road.reference, "");
    assert_eq!(road.oneway, OneWay::ForwardsOnly);
    assert_eq!(road.max_speed, Some(30));
    assert_eq!(road.layer, 0);
    assert!(road.is_bridge);
    assert!(!road.is_tunnel);
    assert_eq!(road.geometry, vec![(1, 2), (3, 4)]);
}

#[test]
fn road_defaults_for_absent_fields() {
    let r = record(&[("osm_id", text("1")), ("fclass", text("path")), ("layer", number(1.0))]);
    let road = Road::from_shapefile_item(&Shape::Polyline { parts: vec![vec![0u8]] }, &r).unwrap();
    assert_eq!(road.oneway, OneWay::Bidirectional);
    assert_eq!(road.max_speed, None);
    assert!(!road.is_bridge && !road.is_tunnel);
}

#[test]
fn road_shape_errors() {
    assert_eq!(
        parse_polyline::<u8>(&Shape::Polyline { parts: vec![vec![1], vec![2]] }),
        Err(RecordParseError::InvalidField { field: "shape", value: "expected one part, got 2".to_string() })
    );
    assert_eq!(
        parse_polyline::<u8>(&Shape::Other),
        Err(RecordParseError::InvalidField { field: "shape", value: "unsupported shape type".to_string() })
    );
    let bad_class = record(&[("osm_id", text("1")), ("fclass", text("autobahn")), ("layer", number(1.0))]);
    assert_eq!(
        Road::from_shapefile_item(&Shape::Polyline { parts: vec![vec![0u8]] }, &bad_class).map(|r| r.osm_id),
        Err(RecordParseError::InvalidField { field: "fclass", value: "autobahn".to_string() })
    );
}

fn square(debug: &str) -> Polygon<(i32, i32)> {
    Polygon { exterior: vec![(0, 0), (1, 0), (1, 1), (0, 0)], interiors: vec![], debug_text: debug.to_string() }
}

#[test]
fn water_from_geometry_and_record() {
    let r = record(&[("osm_id", text("99")), ("fclass", text("reservoir"))]);
    let w = Water::from_shapefile_item(ShapeKind::Polygon, Geometry::Polygon(square("sq")), &r).unwrap();
    assert_eq!((w.osm_id, w.class, w.geometry.len()), (99, WaterClass::Reservoir, 1));
    assert_eq!(w.id(), 99);
    assert_eq!(
        Water::<(i32, i32)>::from_shapefile_item(ShapeKind::Polyline, Geometry::Other, &r).map(|w| w.osm_id),
        Err(RecordParseError::UnexpectedShapeType { shape_type: ShapeKind::Polyline })
    );
}

#[test]
fn degenerate_polygons_are_refused() {
    let r = record(&[("osm_id", text("5")), ("type", text("house"))]);
    let mut holey = square("holey");
    holey.interiors.push(vec![(0, 0), (1, 1), (0, 0)]);
    let multi = Geometry::MultiPolygon(vec![square("ok"), holey]);
    assert_eq!(
        Building::from_shapefile_item(ShapeKind::PolygonZ, multi, &r).map(|b| b.osm_id),
        Err(RecordParseError::InvalidShape { message: "Polygon with less than 4 points: holey".to_string() })
    );
    let b = Building::from_shapefile_item(ShapeKind::Polygon, Geometry::Polygon(square("ok")), &r).unwrap();
    assert_eq!((b.osm_id, b.kind), (5, Some("house".to_string())));
}
