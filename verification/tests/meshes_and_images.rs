use jlh_maps::terrain_mesh::{
    add_skirt_quad, effective_resolution, set_skirt_extension_normals, terrain_mesh_indices,
    terrain_skirt_sources, terrain_top_index, terrain_vertex_count,
};
use jlh_maps::tiled_image::{copy_from_sub_image, Image, TiledImage, TiledImageChunk, TiledImageSource};

/// The triangle list and skirt layout built the way the mesh builder lays them out,
/// side by side, for comparison.
fn reference_mesh(r: u32) -> (Vec<u32>, Vec<u32>) {
    let v = r + 1;
    let top_index = |x: u32, y: u32| y * v + x;
    let mut indices = Vec::new();
    for y in 0..r {
        for x in 0..r {
            let (a, b, c, d) = (top_index(x, y), top_index(x + 1, y), top_index(x + 1, y + 1), top_index(x, y + 1));
            indices.extend_from_slice(&[a, b, c, a, c, d]);
        }
    }
    let mut next = v * v;
    let mut sources = Vec::new();
    let mut side = |f: &dyn Fn(u32) -> u32| -> Vec<(u32, u32)> {
        (0..=r)
            .map(|i| {
                sources.push(f(i));
                let t = next;
                next += 2;
                (t, t + 1)
            })
            .collect()
    };
    let bottom = side(&|x| top_index(x, 0));
    let right = side(&|y| top_index(r, y));
    let top = side(&|x| top_index(x, r));
    let left = side(&|y| top_index(0, y));
    let quad = |out: &mut Vec<u32>, ta: u32, tb: u32, sa: u32, sb: u32| out.extend_from_slice(&[ta, sa, sb, ta, sb, tb]);
    for i in 0..r as usize {
        quad(&mut indices, bottom[i].0, bottom[i + 1].0, bottom[i].1, bottom[i + 1].1);
        quad(&mut indices, right[i].0, right[i + 1].0, right[i].1, right[i + 1].1);
        quad(&mut indices, top[i + 1].0, top[i].0, top[i + 1].1, top[i].1);
        quad(&mut indices, left[i + 1].0, left[i].0, left[i + 1].1, left[i].1);
    }
    (indices, sources)
}

#[test]
fn terrain_mesh_of_one_cell() {
    assert_eq!(effective_resolution(0), 1);
    assert_eq!(effective_resolution(7), 7);
    assert_eq!(terrain_vertex_count(1), 20);
    assert_eq!(
        terrain_mesh_indices(1),
        vec![0, 1, 3, 0, 3, 2, 4, 5, 7, 4, 7, 6, 8, 9, 11, 8, 11, 10, 14, 15, 13, 14, 13, 12, 18, 19, 17, 18, 17, 16]
    );
    assert_eq!(terrain_skirt_sources(1), vec![0, 1, 1, 3, 2, 3, 0, 2]);
}

#[test]
fn terrain_mesh_matches_layout_for_many_resolutions() {
    for r in 1..12u32 {
        let (indices, sources) = reference_mesh(r);
        assert_eq!(terrain_mesh_indices(r), indices);
        assert_eq!(terrain_skirt_sources(r), sources);
        let count = terrain_vertex_count(r);
        assert!(indices.iter().all(|&i| i < count));
        assert_eq!(terrain_top_index(r, r, r), (r + 1) * (r + 1) - 1);
    }
}

#[test]
fn skirt_quad_winding() {
    let mut v = vec![9];
    add_skirt_quad(&mut v, 1, 2, 3, 4);
    assert_eq!(v, vec![9, 1, 3, 4, 1, 4, 2]);
}

#[test]
fn skirt_normals_copy_their_source() {
    let mut normals = vec!['a', 'b', 'c', '-', '-', '-', '-'];
    set_skirt_extension_normals(&mut normals, &[(3, 4), (5, 6)], &[2, 0, 1]);
    assert_eq!(normals, vec!['a', 'b', 'c', 'c', 'c', 'a', 'a']);
}

struct GridSource;

fn grid_tile(tile_index: (u32, u32)) -> Image<(u32, u32, u32, u32)> {
    let mut pixels = Vec::new();
    for y in 0..16 {
        for x in 0..32 {
            pixels.push((tile_index.0, tile_index.1, x, y));
        }
    }
    Image { width: 32, height: 16, pixels }
}

impl TiledImageSource<(u32, u32, u32, u32)> for GridSource {
    type Error = String;

    fn spec_tile(&self, tile_index: (u32, u32)) -> Image<(u32, u32, u32, u32)> {
        grid_tile(tile_index)
    }

    fn load_may_fail(&self, tile_index: (u32, u32)) -> bool {
        tile_index.0 >= 2 || tile_index.1 >= 3
    }

    fn load_tile(&self, tile_index: (u32, u32)) -> Result<Image<(u32, u32, u32, u32)>, String> {
        if tile_index.0 >= 2 || tile_index.1 >= 3 {
            return Err(format!("no tile {tile_index:?}"));
        }
        Ok(grid_tile(tile_index))
    }
}

#[test]
fn test_tiled_image_area() {
    let tiled_image = TiledImage { source: GridSource, tile_resolution: (32, 16), tile_count: (2, 3) };
    let out = tiled_image.load_sub_image(((14, 5), (53, 16)), (0, 0, 0, 0)).unwrap();
    assert_eq!((out.width, out.height), (40, 12));
    for y in 5..=16u32 {
        for x in 14..=53u32 {
            let p = out.pixels[((y - 5) * 40 + (x - 14)) as usize];
            assert_eq!(p, (x / 32, y / 16, x % 32, y % 16));
        }
    }
}

#[test]
fn area_chunks_split_at_tile_borders() {
    let tiled_image = TiledImage { source: GridSource, tile_resolution: (32, 16), tile_count: (2, 3) };
    let chunks = tiled_image.area_chunks(((14, 5), (53, 16)));
    let c = |tile_index, tile_area, area| TiledImageChunk { tile_index, tile_area, area };
    assert_eq!(
        chunks,
        vec![
            c((0, 0), ((14, 5), (31, 15)), ((14, 5), (31, 15))),
            c((0, 1), ((14, 0), (31, 0)), ((14, 16), (31, 16))),
            c((1, 0), ((0, 5), (21, 15)), ((32, 5), (53, 15))),
            c((1, 1), ((0, 0), (21, 0)), ((32, 16), (53, 16))),
        ]
    );
}

#[test]
fn tiled_image_reports_a_failing_tile() {
    let tiled_image = TiledImage { source: GridSource, tile_resolution: (32, 16), tile_count: (2, 3) };
    assert!(tiled_image.load_sub_image(((60, 0), (70, 3)), (0, 0, 0, 0)).is_err());
}

#[test]
fn copy_from_sub_image_places_the_rectangle() {
    let src = Image { width: 3, height: 2, pixels: vec![1, 2, 3, 4, 5, 6] };
    let mut dest = Image::new(4, 3, 0);
    copy_from_sub_image(&src, &mut dest, ((1, 0), (2, 1)), (2, 1));
    assert_eq!(dest.pixels, vec![0, 0, 0, 0, 0, 0, 2, 3, 0, 0, 5, 6]);
    assert_eq!(dest.get_pixel(3, 2), 6);
    dest.put_pixel(0, 0, 9);
    assert_eq!(dest.pixels[0], 9);
}
