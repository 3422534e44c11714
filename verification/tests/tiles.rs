use jlh_maps::tile::parse_active_tile_ids;
use jlh_maps::dem::{dem_channels, dem_index, dem_sample, PackedDEMData};
use jlh_maps::tile::{
    parse_tile_key, tile_key_dir_name, tile_sub_dir, to_subdivision_key, to_subdivision_path,
    CanonicalTileId, GibsLayer, Layer, LocalLayer, SubDivisionKey, TileAxis, TileKeyError,
    TileSubKey,
};
use jlh_maps::text::IntParseError;

#[test]
fn tile_key_parses_z_x_y() {
    assert_eq!(parse_tile_key("3/4/5"), Ok(CanonicalTileId { z: 3, x: 4, y: 5 }));
    assert_eq!(parse_tile_key("10/511/0/extra"), Ok(CanonicalTileId { z: 10, x: 511, y: 0 }));
}

#[test]
fn tile_key_errors_follow_part_order() {
    assert_eq!(parse_tile_key("3"), Err(TileKeyError::MissingCoordinate(TileAxis::X)));
    assert_eq!(parse_tile_key("3/4"), Err(TileKeyError::MissingCoordinate(TileAxis::Y)));
    assert_eq!(parse_tile_key(""), Err(TileKeyError::InvalidCoordinate(IntParseError::Empty)));
    assert_eq!(parse_tile_key("a/1/2"), Err(TileKeyError::InvalidCoordinate(IntParseError::InvalidDigit)));
    assert_eq!(parse_tile_key("1/2/"), Err(TileKeyError::InvalidCoordinate(IntParseError::Empty)));
    assert_eq!(parse_tile_key("1/99999999999/2"), Err(TileKeyError::InvalidCoordinate(IntParseError::PosOverflow)));
}

#[test]
fn tile_sub_key_repr_and_codes() {
    assert_eq!(TileSubKey::TopLeft.to_repr(), 3);
    assert_eq!(TileSubKey::BottomRight.to_repr(), 0);
    assert_eq!(TileSubKey::from_repr(2), Some(TileSubKey::TopRight));
    assert_eq!(TileSubKey::from_repr(4), None);
    assert_eq!(TileSubKey::BottomLeft.code(), "BL");
    assert_eq!(to_subdivision_key(&TileSubKey::TopRight), SubDivisionKey::TopRight);
    assert_eq!(
        to_subdivision_path(&[TileSubKey::TopLeft, TileSubKey::BottomRight]),
        vec![SubDivisionKey::TopLeft, SubDivisionKey::BottomRight]
    );
}

#[test]
fn tile_directory_names() {
    assert_eq!(tile_key_dir_name(&[]), "tile_");
    assert_eq!(tile_key_dir_name(&[TileSubKey::TopLeft, TileSubKey::TopRight, TileSubKey::BottomLeft]), "tile_TL_TR_BL");
    let layer = Layer::Gibs(GibsLayer::LayerModisTerraCorrectedReflectanceTrueColor);
    assert_eq!(layer.dir_name(), "Gibs(LayerModisTerraCorrectedReflectanceTrueColor)");
    assert_eq!(Layer::SenHub.dir_name(), "SenHub");
    assert_eq!(Layer::Local(LocalLayer::GlobalMosaicSen2).dir_name(), "Local(GlobalMosaicSen2)");
    assert_eq!(GibsLayer::from_name("LayerModisTerraCorrectedReflectanceTrueColor"), Some(GibsLayer::LayerModisTerraCorrectedReflectanceTrueColor));
}

#[test]
fn tile_sub_dir_hex_encodes_projection() {
    let d = tile_sub_dir(&Layer::SenHub, "Az\u{e9}", &[TileSubKey::BottomRight]);
    assert_eq!(d.layer, "SenHub");
    assert_eq!(d.projection, "417ac3a9");
    assert_eq!(d.file_name, "tile_BR.jpg");
    let text = "BoundedMercator { min_lat: -85.0, max_lat: 85.0 }";
    assert_eq!(tile_sub_dir(&Layer::SenHub, text, &[]).projection, hex_of(text));
}

fn hex_of(s: &str) -> String {
    s.bytes().map(|b| format!("{b:02x}")).collect()
}

#[test]
fn dem_index_covers_border() {
    // 4 x 4 samples with a one-sample border: rows of 6.
    assert_eq!(dem_index(6, 4, -1, -1), Some(0));
    assert_eq!(dem_index(6, 4, 4, 4), Some(35));
    assert_eq!(dem_index(6, 4, 0, 0), Some(7));
    assert_eq!(dem_index(6, 4, 5, 0), None);
    assert_eq!(dem_index(6, 4, 0, -2), None);
}

#[test]
fn dem_channels_unpack_bytes() {
    assert_eq!(dem_channels(0x00ab_cdef), PackedDEMData { r: 0xef, g: 0xcd, b: 0xab });
    assert_eq!(dem_channels(0xff12_3456), PackedDEMData { r: 0x56, g: 0x34, b: 0x12 });
    let data: Vec<u32> = (0..36).collect();
    assert_eq!(dem_sample(&data, 6, 4, 0, 0), Some(PackedDEMData { r: 7, g: 0, b: 0 }));
    assert_eq!(dem_sample(&data[..10], 6, 4, 4, 4), None);
    assert_eq!(dem_sample(&data, 6, 4, 9, 4), None);
}

#[test]
fn active_tile_ids_parse_and_dedup() {
    let keys: Vec<String> = ["1/0/0", "2/1/1", "1/0/0"].iter().map(|s| s.to_string()).collect();
    assert_eq!(
        parse_active_tile_ids(&keys),
        Ok(vec![CanonicalTileId { z: 1, x: 0, y: 0 }, CanonicalTileId { z: 2, x: 1, y: 1 }])
    );
    let bad: Vec<String> = ["1/0/0", "1/x/0", "7"].iter().map(|s| s.to_string()).collect();
    assert_eq!(parse_active_tile_ids(&bad), Err(TileKeyError::InvalidCoordinate(IntParseError::InvalidDigit)));
    assert_eq!(parse_active_tile_ids(&[]), Ok(vec![]));
}
