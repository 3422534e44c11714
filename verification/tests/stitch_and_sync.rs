use image::ImageEncoder;
use jlh_maps::feature_store::{MaplibreFeatureData, SourceLayerFeature};
use jlh_maps::ingest::{offset_cell, take_bands, take_userdata, Mode, OffsetNameError, TileFile, TileFilesError};
use jlh_maps::keyed_map::KeyedMap;
use jlh_maps::read_cache::{ReadCache, ReadStep};
use jlh_maps::road::{RoadClass, RoadClassCategory};
use jlh_maps::stitch::{overlay_rgba, stitch_parent_tile, stitch_resized_children, ResizeFilter, StitchError};
use jlh_maps::tile::CanonicalTileId;
use jlh_maps::tiled_image::Image;
use jlh_maps::view_sync::{apply_sync_commands, MapViewState, MapViewsState, SyncCommand};

fn png_bytes(width: u32, height: u32, pixel: [u8; 4]) -> Vec<u8> {
    let raw: Vec<u8> = (0..width * height).flat_map(|_| pixel).collect();
    let mut out = Vec::new();
    image::codecs::png::PngEncoder::new(&mut out)
        .write_image(&raw, width, height, image::ExtendedColorType::Rgba8)
        .unwrap();
    out
}

#[test]
fn offset_cell_reads_the_four_groups() {
    assert_eq!(
        offset_cell("N18E000"),
        Ok((false, "18".to_string(), false, "000".to_string()))
    );
    assert_eq!(
        offset_cell("tile_S05W120_v2"),
        Ok((true, "05".to_string(), true, "120".to_string()))
    );
    assert_eq!(offset_cell("N18"), Err(OffsetNameError::NotFound));
    assert_eq!(offset_cell(""), Err(OffsetNameError::NotFound));
}

fn files(names: &[&str]) -> KeyedMap<String, Vec<u8>> {
    let mut m = KeyedMap::new();
    for (i, n) in names.iter().enumerate() {
        m.insert(n.to_string(), vec![i as u8]);
    }
    m
}

#[test]
fn tile_files_are_checked_in_order() {
    let mut f = files(&["userdata.json", "B02.tif", "B03.tif", "B04.tif"]);
    assert_eq!(take_userdata(Mode::Mgrs, &mut f), Ok(Some(vec![0])));
    assert_eq!(f.len(), 3);
    assert_eq!(take_bands(&mut f), Ok((vec![3], vec![2], vec![1])));
    assert!(f.is_empty());

    let mut f = files(&["B02.tif", "B04.tif"]);
    assert_eq!(take_userdata(Mode::Mgrs, &mut f), Err(TileFilesError::Missing(TileFile::Userdata)));
    assert_eq!(take_userdata(Mode::Offset, &mut f), Ok(None));
    assert_eq!(f.len(), 2);
    assert_eq!(take_bands(&mut f), Err(TileFilesError::Missing(TileFile::Green)));
    assert_eq!(f.len(), 1);

    let mut f = files(&["B02.tif", "B03.tif"]);
    assert_eq!(take_bands(&mut f), Err(TileFilesError::Missing(TileFile::Red)));
    assert_eq!(f.len(), 2);
    let mut f = files(&["B03.tif", "B04.tif"]);
    assert_eq!(take_bands(&mut f), Err(TileFilesError::Missing(TileFile::Blue)));
    assert_eq!(TileFile::Red.name(), "B04.tif");
}

#[test]
fn stitching_without_children_gives_nothing() {
    let children: Vec<Option<Vec<u8>>> = vec![None, None, None, None];
    assert!(matches!(stitch_parent_tile(&children, 4, ResizeFilter::Nearest), Ok(None)));
}

#[test]
fn stitching_reports_the_first_undecodable_child() {
    let children = vec![Some(png_bytes(2, 2, [1, 2, 3, 255])), Some(vec![1, 2, 3]), Some(vec![9]), None];
    assert!(matches!(
        stitch_parent_tile(&children, 4, ResizeFilter::Triangle),
        Err(StitchError::Decode(1))
    ));
}

#[test]
fn stitching_places_each_child_in_its_quadrant() {
    let red = [200, 10, 10, 255];
    let blue = [10, 10, 200, 255];
    let children = vec![Some(png_bytes(4, 4, red)), None, None, Some(png_bytes(8, 8, blue))];
    let out = stitch_parent_tile(&children, 4, ResizeFilter::Nearest).unwrap().unwrap();
    assert_eq!((out.width, out.height), (4, 4));
    for y in 0..4 {
        for x in 0..4 {
            let expected = match (x / 2, y / 2) {
                (0, 0) => red,
                (1, 1) => blue,
                _ => [0, 0, 0, 0],
            };
            assert_eq!(out.get_pixel(x, y), expected, "pixel ({x}, {y})");
        }
    }
}

#[test]
fn overlay_composites_over_the_bottom() {
    let mut bottom = Image::new(3, 2, [5u8, 5, 5, 255]);
    let top = Image { width: 2, height: 1, pixels: vec![[9u8, 9, 9, 255], [7, 7, 7, 0]] };
    overlay_rgba(&mut bottom, &top, 1, 1);
    assert_eq!(bottom.get_pixel(1, 1), [9, 9, 9, 255]);
    assert_eq!(bottom.get_pixel(2, 1), [5, 5, 5, 255]);
    assert_eq!(bottom.get_pixel(0, 0), [5, 5, 5, 255]);
}

fn view(selector: &str) -> MapViewState<u32, Vec<u32>, Vec<u32>, u8> {
    MapViewState {
        selector: selector.to_string(),
        camera: 0,
        active_tiles: vec![],
        active_features: vec![],
        terrain: KeyedMap::new(),
    }
}

#[test]
fn sync_commands_reach_the_named_view() {
    let mut state = MapViewsState { views: vec![view("#a"), view("#b"), view("#a")] };
    let commands = vec![
        SyncCommand::View { selector: "#a".to_string(), camera: 1 },
        SyncCommand::View { selector: "#a".to_string(), camera: 2 },
        SyncCommand::Tiles { selector: "#b".to_string(), tiles: vec![7] },
        SyncCommand::Features { selector: "#c".to_string(), features: vec![9] },
        SyncCommand::TerrainData { selector: "#b".to_string(), tile_key: "3/4/5".to_string(), data: 42 },
        SyncCommand::TerrainData { selector: "#b".to_string(), tile_key: "3/x/5".to_string(), data: 43 },
    ];
    apply_sync_commands(&mut state, commands);
    assert_eq!(state.views[0].camera, 2);
    assert_eq!(state.views[2].camera, 0);
    assert_eq!(state.views[1].active_tiles, vec![7]);
    assert!(state.views.iter().all(|v| v.active_features.is_empty()));
    assert_eq!(state.views[1].terrain.len(), 1);
    assert_eq!(state.views[1].terrain.get(&CanonicalTileId { z: 3, x: 4, y: 5 }), Some(&42));
}

#[test]
fn read_cache_keeps_a_recently_used_file() {
    let mut cache = ReadCache::new();
    for i in 0..64 {
        cache.finish(format!("{i}.png"), Some(vec![i as u8]));
    }
    assert!(matches!(cache.begin("0.png"), ReadStep::Respond(_)));
    cache.finish("64.png".to_string(), Some(vec![64]));
    assert!(matches!(cache.begin("0.png"), ReadStep::Respond(_)));
    assert!(matches!(cache.begin("1.png"), ReadStep::ReadFile));
    assert!(matches!(cache.begin("2.png"), ReadStep::Respond(_)));
}

#[test]
fn road_categories_follow_the_names() {
    let all = [
        RoadClass::Motorway, RoadClass::Trunk, RoadClass::Primary, RoadClass::Secondary, RoadClass::Tertiary,
        RoadClass::Unclassified, RoadClass::Residential, RoadClass::LivingStreet, RoadClass::Pedestrian,
        RoadClass::Busway, RoadClass::MotorwayLink, RoadClass::TrunkLink, RoadClass::PrimaryLink,
        RoadClass::SecondaryLink, RoadClass::TertiaryLink, RoadClass::Service, RoadClass::Track,
        RoadClass::TrackGrade1, RoadClass::TrackGrade2, RoadClass::TrackGrade3, RoadClass::TrackGrade4,
        RoadClass::TrackGrade5, RoadClass::Bridleway, RoadClass::Cycleway, RoadClass::Footway, RoadClass::Path,
        RoadClass::Steps, RoadClass::Unknown,
    ];
    for c in all {
        let name = c.name();
        assert_eq!(c.category() == RoadClassCategory::Unknown, c == RoadClass::Unknown);
        assert_eq!(c.category() == RoadClassCategory::HighwayLinks, name.ends_with("_link"));
        assert_eq!(
            c.category() == RoadClassCategory::VerySmallRoads,
            c == RoadClass::Service || name.starts_with("track")
        );
    }
}

#[test]
fn removing_a_feature_keeps_the_others() {
    let t = CanonicalTileId { z: 3, x: 1, y: 2 };
    let f = |id: &str, g: i32| SourceLayerFeature { tile_id: t, id: id.to_string(), geometry: g, properties: () };
    let mut data = MaplibreFeatureData::new();
    data.insert("osm".to_string(), "roads".to_string(), t, f("a", 1));
    data.insert("osm".to_string(), "roads".to_string(), t, f("b", 2));
    data.remove("osm", "roads", &t, "a");
    let src = data.sources.get(&"osm".to_string()).unwrap();
    let tile = src.source_layers.get(&"roads".to_string()).unwrap().tiles.get(&t).unwrap();
    assert!(tile.get(&"a".to_string()).is_none());
    assert_eq!(tile.get(&"b".to_string()).map(|x| x.geometry), Some(2));
    data.remove("osm", "roads", &t, "b");
    assert!(data.sources.is_empty());
}

#[test]
fn offset_tiles_need_no_userdata() {
    let mut f = files(&["B02.tif", "B03.tif", "B04.tif"]);
    assert_eq!(take_userdata(Mode::Offset, &mut f), Ok(None));
    assert_eq!(f.len(), 3);
    assert_eq!(take_bands(&mut f), Ok((vec![2], vec![1], vec![0])));
}

#[test]
fn stitching_with_any_filter_gives_the_parent_size() {
    let children = vec![None, Some(png_bytes(6, 6, [1, 2, 3, 255])), None, None];
    for filter in [ResizeFilter::CatmullRom, ResizeFilter::Gaussian, ResizeFilter::Lanczos3] {
        let out = stitch_parent_tile(&children, 4, filter).unwrap().unwrap();
        assert_eq!((out.width, out.height, out.pixels.len()), (4, 4, 16));
        assert_eq!(out.get_pixel(0, 0), [0, 0, 0, 0]);
        assert_eq!(out.get_pixel(1, 3), [0, 0, 0, 0]);
    }
}

#[test]
fn resized_children_fill_their_quadrants() {
    let a = Image::new(1, 1, [1u8, 1, 1, 255]);
    let d = Image::new(1, 1, [4u8, 4, 4, 255]);
    let out = stitch_resized_children(&[Some(a), None, None, Some(d)], 2);
    assert_eq!(out.pixels, vec![[1, 1, 1, 255], [0, 0, 0, 0], [0, 0, 0, 0], [4, 4, 4, 255]]);
}
