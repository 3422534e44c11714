use jlh_maps::ingest::{
    check_tile_json_params, child_tiles, descending_levels, detect_mode, extract_bounds_utm,
    hierarchical_tile_name, renders_base_tiles, smallest_sufficient_divisor, stitch_zoom_levels,
    sub_tile_crops, sub_tile_divisions, sub_tile_stem, tile_url_template, xyz_tile_grid,
    xyz_tile_path, ChildTile, Mode, ModeError, SubTileCrop, TileJsonParamError, UtmZoneError,
};

#[test]
fn smallest_sufficient_divisor_examples() {
    assert_eq!(smallest_sufficient_divisor(10980, 4096), 3);
    assert_eq!(smallest_sufficient_divisor(7, 2), 7);
    assert_eq!(smallest_sufficient_divisor(12, 5), 3);
    assert_eq!(smallest_sufficient_divisor(5, 10), 1);
    assert_eq!(smallest_sufficient_divisor(0, 3), 0);
    assert_eq!(smallest_sufficient_divisor(100, 30), 4);
}

#[test]
fn sufficient_divisor_keeps_tiles_small() {
    for n in 1..200u32 {
        for max in 1..40u32 {
            let d = smallest_sufficient_divisor(n, max);
            assert_eq!(n % d, 0);
            assert!(n / d <= max);
        }
    }
}

#[test]
fn sub_tile_divisions_without_limit_is_single() {
    assert_eq!(sub_tile_divisions(10980, 10980, None), (1, 1));
    assert_eq!(sub_tile_divisions(10980, 5490, Some(4096)), (3, 2));
}

#[test]
fn sub_tile_crops_run_from_the_south_row() {
    let crops = sub_tile_crops(10, 6, 2, 3);
    let expect = |i, j, x, y| SubTileCrop { i, j, x, y, width: 5, height: 2 };
    assert_eq!(
        crops,
        vec![expect(0, 0, 0, 4), expect(1, 0, 5, 4), expect(0, 1, 0, 2), expect(1, 1, 5, 2), expect(0, 2, 0, 0), expect(1, 2, 5, 0)]
    );
}

#[test]
fn sub_tile_stems() {
    assert_eq!(sub_tile_stem("T32UNE", 1, 2, false), "T32UNE_1_2");
    assert_eq!(sub_tile_stem("T32UNE", 0, 0, true), "T32UNE");
}

#[test]
fn tile_json_parameter_checks() {
    assert_eq!(check_tile_json_params(31, 256), Err(TileJsonParamError::DepthTooHigh(31)));
    assert_eq!(check_tile_json_params(31, 255), Err(TileJsonParamError::DepthTooHigh(31)));
    assert_eq!(check_tile_json_params(12, 255), Err(TileJsonParamError::OddResolution(255)));
    assert_eq!(check_tile_json_params(30, 256), Ok(()));
}

#[test]
fn zoom_levels_of_a_run() {
    assert_eq!(descending_levels(3), vec![3, 2, 1, 0]);
    assert_eq!(stitch_zoom_levels(5, None), vec![4, 3, 2, 1, 0]);
    assert_eq!(stitch_zoom_levels(5, Some(2)), vec![2, 1, 0]);
    assert_eq!(stitch_zoom_levels(5, Some(9)), vec![4, 3, 2, 1, 0]);
    assert_eq!(stitch_zoom_levels(0, None), vec![0]);
    assert!(renders_base_tiles(5, None));
    assert!(renders_base_tiles(5, Some(7)));
    assert!(!renders_base_tiles(5, Some(3)));
}

#[test]
fn tile_grid_is_column_major() {
    assert_eq!(xyz_tile_grid(2, 3, 5, 6), vec![(2, 5), (2, 6), (3, 5), (3, 6)]);
    assert_eq!(xyz_tile_grid(4, 3, 0, 0), vec![]);
    assert_eq!(xyz_tile_grid(0, 0, 1, 0), vec![]);
}

#[test]
fn children_of_a_tile() {
    let c = |x, y, offset_x, offset_y| ChildTile { x, y, offset_x, offset_y };
    assert_eq!(child_tiles(3, 4, 256), vec![c(6, 8, 0, 0), c(7, 8, 128, 0), c(6, 9, 0, 128), c(7, 9, 128, 128)]);
}

#[test]
fn tile_paths_and_urls() {
    assert_eq!(xyz_tile_path(3, 4, 5), "3/4/5.png");
    assert_eq!(xyz_tile_path(0, 0, 0), "0/0/0.png");
    assert_eq!(tile_url_template("https://tiles.example"), "https://tiles.example/{z}/{x}/{y}.png");
    assert_eq!(hierarchical_tile_name(""), "R");
    assert_eq!(hierarchical_tile_name("TLBR"), "TLBR");
}

#[test]
fn dataset_mode_detection() {
    assert_eq!(detect_mode(true, "whatever"), Ok(Mode::Mgrs));
    assert_eq!(detect_mode(false, "N18E000"), Ok(Mode::Offset));
    assert_eq!(detect_mode(false, "tile_S2W123_x"), Ok(Mode::Offset));
    assert_eq!(detect_mode(false, "tile_12"), Err(ModeError::Undetected));
    assert_eq!(Mode::Mgrs.dir_files(), vec!["B02.tif", "B03.tif", "B04.tif", "userdata.json"]);
    assert_eq!(Mode::Offset.dir_files(), vec!["B02.tif", "B03.tif", "B04.tif"]);
}

#[test]
fn utm_zone_from_mosaic_name() {
    assert_eq!(extract_bounds_utm("Sentinel-2_mosaic_2025_Q3_32UNE_0_0"), Ok("32UNE".to_string()));
    assert_eq!(extract_bounds_utm("Sentinel-2_mosaic_2024_Q3_32UNE"), Err(UtmZoneError::NotFound));
}

#[test]
fn children_cover_their_parent_once() {
    let children = child_tiles(10, 20, 8);
    for py in 0..8u32 {
        for px in 0..8u32 {
            let covering = children
                .iter()
                .filter(|c| c.offset_x <= px && px < c.offset_x + 4 && c.offset_y <= py && py < c.offset_y + 4)
                .count();
            assert_eq!(covering, 1);
        }
    }
    assert!(children.iter().all(|c| c.x / 2 == 10 && c.y / 2 == 20));
}

#[test]
fn decimal_rendering_reads_back() {
    for n in [0u32, 9, 10, 4711, u32::MAX] {
        assert_eq!(jlh_maps::text::parse_u32(&jlh_maps::text::format_u64(n as u64)), Ok(n));
    }
}
