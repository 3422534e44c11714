use jlh_maps::debug::{soft_expect_message, SoftExpect};
use jlh_maps::despawn::DespawnIndicator;
use jlh_maps::queries::{
    closed_ring, copy_bytes, road_from_area_row, road_from_category_row, FetchBuildingsByArea,
    FetchBuildingsByAreaBorrowed, FetchRoadsByArea, FetchRoadsByAreaAndCategory,
    FetchRoadsByAreaAndCategoryBorrowed, FetchRoadsByAreaBorrowed, FetchWatersByArea,
    FetchWatersByAreaBorrowed, ListAllRoads, ListAllRoadsBorrowed,
};
use jlh_maps::read_cache::{ReadCache, ReadStep};
use jlh_maps::road::{self, OneWay};
use jlh_maps::sql_types::{RoadClass, RoadClassCategory, RoadOneway, WaterClass};
use jlh_maps::web_input::{button_state, web_key_code, web_logical_key, web_mouse_button, ButtonState, KeyCode, LogicalKey, MouseButton};

#[test]
fn borrowed_rows_become_owned() {
    let geom = [1u8, 2, 3];
    let row: ListAllRoads = ListAllRoadsBorrowed {
        osm_id: 7,
        class: RoadClass::path,
        category: RoadClassCategory::paths_unsuitable_for_cars,
        oneway: RoadOneway::bidirectional,
        max_speed: 0,
        layer: -1,
        reference: "E45",
        is_bridge: false,
        is_tunnel: true,
        geom: &geom,
    }
    .into();
    assert_eq!(row.reference, "E45");
    assert_eq!(row.geom, vec![1, 2, 3]);
    assert_eq!((row.osm_id, row.layer, row.is_tunnel), (7, -1, true));

    let b: FetchBuildingsByArea = FetchBuildingsByAreaBorrowed { osm_id: 1, kind: Some("church"), geom: &geom }.into();
    assert_eq!(b.kind.as_deref(), Some("church"));
    let w: FetchWatersByArea = FetchWatersByAreaBorrowed { osm_id: 2, class: WaterClass::dock, geom: &[] }.into();
    assert_eq!((w.class, w.geom.len()), (WaterClass::dock, 0));
    assert_eq!(copy_bytes(&geom), geom.to_vec());
}

fn area_row(max_speed: Option<i32>) -> FetchRoadsByArea {
    FetchRoadsByAreaBorrowed {
        osm_id: 11,
        class: RoadClass::motorway,
        category: RoadClassCategory::major_roads,
        oneway: RoadOneway::forwards_only,
        max_speed,
        layer: 2,
        reference: "A1",
        is_bridge: true,
        is_tunnel: false,
        geom: &[],
    }
    .into()
}

#[test]
fn rows_become_roads() {
    let road = road_from_area_row(area_row(Some(120)), vec![(0, 0), (1, 1)]);
    assert_eq!(road.class, road::RoadClass::Motorway);
    assert_eq!(road.oneway, OneWay::ForwardsOnly);
    assert_eq!(road.max_speed, Some(120));
    assert_eq!(road.reference, "A1");
    assert_eq!(road.geometry.len(), 2);
    assert_eq!(road_from_area_row(area_row(Some(-1)), Vec::<u8>::new()).max_speed, Some(u32::MAX));
    let cat: FetchRoadsByAreaAndCategory = FetchRoadsByAreaAndCategoryBorrowed {
        osm_id: 3,
        class: RoadClass::track_grade2,
        category: RoadClassCategory::very_small_roads,
        oneway: RoadOneway::backwards_only,
        max_speed: None,
        layer: 0,
        reference: "",
        is_bridge: false,
        is_tunnel: false,
        geom: &[],
    }
    .into();
    let road = road_from_category_row(cat, vec![0u8]);
    assert_eq!((road.class, road.oneway, road.max_speed), (road::RoadClass::TrackGrade2, OneWay::BackwardsOnly, None));
}

#[test]
fn query_rings_are_closed() {
    assert_eq!(closed_ring(&[1, 2, 3, 4]), vec![4, 1, 2, 3, 4]);
    assert_eq!(closed_ring(&[7]), vec![7, 7]);
}

#[test]
fn soft_expect_keeps_the_value() {
    assert_eq!(Some(3).soft_expect("three"), Some(3));
    assert_eq!(None::<u8>.soft_expect(""), None);
    assert_eq!(soft_expect_message(""), "Expected to be Some but was None");
    assert_eq!(soft_expect_message("no camera"), "no camera");
    assert_ne!(DespawnIndicator::Active, DespawnIndicator::Despawning);
}

#[test]
fn read_cache_serves_what_was_read() {
    let mut cache = ReadCache::new();
    assert!(matches!(cache.begin("a.png"), ReadStep::ReadFile));
    cache.finish("a.png".to_string(), Some(vec![1, 2]));
    match cache.begin("a.png") {
        ReadStep::Respond(bytes) => assert_eq!(bytes, vec![1, 2]),
        ReadStep::ReadFile => panic!("expected a cached file"),
    }
    cache.finish("b.png".to_string(), None);
    assert!(matches!(cache.begin("b.png"), ReadStep::ReadFile));
}

#[test]
fn read_cache_evicts_the_least_recent() {
    let mut cache = ReadCache::new();
    for i in 0..65 {
        cache.finish(format!("{i}.png"), Some(vec![i as u8]));
    }
    assert!(matches!(cache.begin("0.png"), ReadStep::ReadFile));
    assert!(matches!(cache.begin("64.png"), ReadStep::Respond(_)));
}

#[test]
fn browser_input_mapping() {
    assert_eq!(button_state(true), ButtonState::Pressed);
    assert_eq!(button_state(false), ButtonState::Released);
    assert_eq!(web_mouse_button(0), MouseButton::Left);
    assert_eq!(web_mouse_button(4), MouseButton::Forward);
    assert_eq!(web_mouse_button(7), MouseButton::Other(7));
    assert_eq!(web_mouse_button(-1), MouseButton::Other(u16::MAX));
    assert_eq!(web_key_code("KeyQ"), KeyCode::KeyQ);
    assert_eq!(web_key_code("MetaLeft"), KeyCode::SuperLeft);
    assert_eq!(web_key_code("Numpad1"), KeyCode::Unidentified);
    assert_eq!(web_logical_key("F11"), LogicalKey::F11);
    assert_eq!(web_logical_key("Meta"), LogicalKey::Meta);
    assert_eq!(web_logical_key(""), LogicalKey::Unidentified);
    assert_eq!(web_logical_key("ä"), LogicalKey::Character("ä".to_string()));
}
