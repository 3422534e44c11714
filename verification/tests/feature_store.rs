use jlh_maps::feature_store::{MaplibreFeatureData, MaplibreFeatureSourceData, MaplibreFeatureSourceLayerData, SourceLayerFeature};
use jlh_maps::keyed_map::KeyedMap;
use jlh_maps::tile::CanonicalTileId;

fn tile(z: u32, x: u32, y: u32) -> CanonicalTileId {
    CanonicalTileId { z, x, y }
}

fn feature(t: CanonicalTileId, id: &str, geometry: i32) -> SourceLayerFeature<i32, ()> {
    SourceLayerFeature { tile_id: t, id: id.to_string(), geometry, properties: () }
}

fn feature_ids(data: &MaplibreFeatureData<SourceLayerFeature<i32, ()>>, source: &str, layer: &str, t: CanonicalTileId) -> Vec<(String, i32)> {
    let Some(src) = data.sources.get(&source.to_string()) else { return vec![] };
    let Some(lay) = src.source_layers.get(&layer.to_string()) else { return vec![] };
    let Some(features) = lay.tiles.get(&t) else { return vec![] };
    let mut ids: Vec<(String, i32)> = features.entries().iter().map(|(k, f)| (k.clone(), f.geometry)).collect();
    ids.sort();
    ids
}

#[test]
fn keyed_map_behaves_like_a_map() {
    let mut m: KeyedMap<String, u8> = KeyedMap::new();
    assert!(m.is_empty());
    m.insert("a".to_string(), 1);
    m.insert("b".to_string(), 2);
    m.insert("a".to_string(), 3);
    assert_eq!(m.len(), 2);
    assert_eq!(m.get(&"a".to_string()), Some(&3));
    assert_eq!(m.remove(&"b".to_string()), Some(2));
    assert_eq!(m.remove(&"b".to_string()), None);
    assert_eq!(m.len(), 1);
}

#[test]
fn features_are_found_after_insert() {
    let mut data = MaplibreFeatureData::new();
    let t = tile(14, 8800, 5370);
    data.insert("osm".to_string(), "building".to_string(), t, feature(t, "w1", 1));
    data.insert("osm".to_string(), "building".to_string(), t, feature(t, "w2", 2));
    data.insert("osm".to_string(), "building".to_string(), t, feature(t, "w1", 3));
    assert_eq!(feature_ids(&data, "osm", "building", t), vec![("w1".to_string(), 3), ("w2".to_string(), 2)]);
}

#[test]
fn removing_the_last_feature_drops_empty_containers() {
    let mut data = MaplibreFeatureData::new();
    let t1 = tile(1, 0, 0);
    let t2 = tile(1, 1, 0);
    data.insert("osm".to_string(), "water".to_string(), t1, feature(t1, "a", 1));
    data.insert("osm".to_string(), "water".to_string(), t2, feature(t2, "b", 2));
    data.remove("osm", "water", &t1, "a");
    let src = data.sources.get(&"osm".to_string()).unwrap();
    let lay = src.source_layers.get(&"water".to_string()).unwrap();
    assert!(lay.tiles.get(&t1).is_none());
    assert_eq!(lay.tiles.len(), 1);
    data.remove("osm", "water", &t2, "b");
    assert!(data.sources.is_empty());
}

#[test]
fn removing_a_missing_feature_changes_nothing() {
    let mut data = MaplibreFeatureData::new();
    let t = tile(3, 1, 2);
    data.insert("osm".to_string(), "building".to_string(), t, feature(t, "x", 7));
    data.remove("other", "building", &t, "x");
    data.remove("osm", "water", &t, "x");
    data.remove("osm", "building", &tile(3, 2, 2), "x");
    data.remove("osm", "building", &t, "y");
    assert_eq!(feature_ids(&data, "osm", "building", t), vec![("x".to_string(), 7)]);
}

#[test]
fn layer_and_source_report_emptiness() {
    let mut layer: MaplibreFeatureSourceLayerData<u8> = MaplibreFeatureSourceLayerData::new();
    assert!(layer.remove(&tile(0, 0, 0), "none"));
    let mut source: MaplibreFeatureSourceData<u8> = MaplibreFeatureSourceData::new();
    assert!(source.remove("layer", &tile(0, 0, 0), "none"));
}

#[test]
fn tile_features_in_batches() {
    let mut data = MaplibreFeatureData::new();
    let t = tile(5, 3, 4);
    data.insert_tile_features(
        "osm".to_string(),
        "water".to_string(),
        t,
        vec![feature(t, "a", 1), feature(t, "b", 2), feature(t, "a", 5)],
    );
    assert_eq!(feature_ids(&data, "osm", "water", t), vec![("a".to_string(), 5), ("b".to_string(), 2)]);
    data.remove_tile_features("osm", "water", &t, &["a".to_string(), "missing".to_string()]);
    assert_eq!(feature_ids(&data, "osm", "water", t), vec![("b".to_string(), 2)]);
    data.remove_tile_features("osm", "water", &t, &["b".to_string()]);
    assert!(data.sources.is_empty());
}
