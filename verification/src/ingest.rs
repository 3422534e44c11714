//! Planning of the satellite ingestion pipeline: how source images are cut into
//! sub-tiles, which XYZ tiles are produced at each zoom level, and how a parent tile
//! is assembled from its four children.
use crate::keyed_map::KeyedMap;
use crate::text::{append_decimal, str_eq};
use vstd::arithmetic::div_mod::{lemma_fundamental_div_mod, lemma_fundamental_div_mod_converse};
use vstd::prelude::*;

verus! {

/// `⌈n / d⌉`.
pub open spec fn spec_div_ceil(n: int, d: int) -> int {
    n / d + if n % d == 0 {
        0int
    } else {
        1int
    }
}

/// Whether `d` is a divisor of `n` that splits `n` pixels into parts of at most `max`.
pub open spec fn is_sufficient_divisor(n: int, max: int, d: int) -> bool {
    spec_div_ceil(n, max) <= d && d <= n && n % d == 0
}

/// The smallest divisor `d` of `n` with `d ≥ ⌈n / max⌉`; 0 for `n == 0`.
pub open spec fn spec_smallest_sufficient_divisor(n: int, max: int, d: int) -> bool {
    if n == 0 {
        d == 0
    } else {
        is_sufficient_divisor(n, max, d) && forall|e: int|
            spec_div_ceil(n, max) <= e < d ==> #[trigger] (n % e) != 0
    }
}

proof fn lemma_div_ceil_bounds(n: int, max: int)
    requires
        n > 0,
        max > 0,
    ensures
        1 <= spec_div_ceil(n, max) <= n,
        spec_div_ceil(n, max) * max >= n,
{
    lemma_fundamental_div_mod(n, max);
    let q = n / max;
    let r = n % max;
    assert(n == max * q + r);
    assert(0 <= r < max);
    assert(q >= 0) by (nonlinear_arith)
        requires
            n == max * q + r,
            0 <= r < max,
            n > 0,
            max > 0,
    ;
    if r == 0 {
        assert(q >= 1 && q <= n && q * max == n) by (nonlinear_arith)
            requires
                n == max * q,
                n > 0,
                max > 0,
        ;
    } else {
        assert(q + 1 <= n && (q + 1) * max >= n) by (nonlinear_arith)
            requires
                n == max * q + r,
                0 < r < max,
                q >= 0,
                n > 0,
        ;
    }
}

/// A sub-tile cut with a sufficient divisor is no larger than `max`, and the cut is
/// exact: `d` parts of `n / d` pixels make up `n`.
pub proof fn lemma_sufficient_divisor_fits(n: int, max: int, d: int)
    requires
        n > 0,
        max > 0,
        is_sufficient_divisor(n, max, d),
    ensures
        d >= 1,
        n / d <= max,
        (n / d) * d == n,
{
    lemma_div_ceil_bounds(n, max);
    lemma_fundamental_div_mod(n, d);
    let q = n / d;
    assert(n == d * q);
    assert(d * max >= n) by (nonlinear_arith)
        requires
            d >= spec_div_ceil(n, max),
            spec_div_ceil(n, max) * max >= n,
            max > 0,
    ;
    assert(q <= max) by (nonlinear_arith)
        requires
            n == d * q,
            d * max >= n,
            d >= 1,
    ;
    assert(q * d == n) by (nonlinear_arith)
        requires
            n == d * q,
    ;
}

/// Returns the smallest divisor of `n` that is at least `⌈n / max⌉`, so that `n`
/// pixels split into that many parts of at most `max` pixels each.
pub fn smallest_sufficient_divisor(n: u32, max: u32) -> (d: u32)
    requires
        max > 0,
    ensures
        spec_smallest_sufficient_divisor(n as int, max as int, d as int),
{
    if n == 0 {
        return 0;
    }
    proof {
        lemma_div_ceil_bounds(n as int, max as int);
    }
    let min_d: u32 = n / max + if n % max == 0 {
        0
    } else {
        1
    };
    let mut d: u32 = min_d;
    while d < n
        invariant
            n > 0,
            max > 0,
            min_d == spec_div_ceil(n as int, max as int),
            1 <= min_d <= d <= n,
            forall|e: int| min_d <= e < d ==> #[trigger] (n as int % e) != 0,
        decreases n - d,
    {
        if n % d == 0 {
            return d;
        }
        d += 1;
    }
    proof {
        lemma_fundamental_div_mod_converse(n as int, n as int, 1, 0);
    }
    d
}

/// How many sub-tiles an image of `width × height` pixels is cut into across and
/// down: with a maximum size, the smallest sufficient divisors; without, one.
pub open spec fn spec_sub_tile_divisions(width: u32, height: u32, max_res: Option<u32>, d: (
    u32,
    u32,
)) -> bool {
    match max_res {
        Some(m) => spec_smallest_sufficient_divisor(width as int, m as int, d.0 as int)
            && spec_smallest_sufficient_divisor(height as int, m as int, d.1 as int),
        None => d == (1u32, 1u32),
    }
}

/// The number of sub-tiles across and down for an image of `width × height`.
pub fn sub_tile_divisions(width: u32, height: u32, max_res: Option<u32>) -> (d: (u32, u32))
    requires
        max_res matches Some(m) ==> m > 0,
    ensures
        spec_sub_tile_divisions(width, height, max_res, d),
{
    match max_res {
        Some(m) => (smallest_sufficient_divisor(width, m), smallest_sufficient_divisor(height, m)),
        None => (1, 1),
    }
}

/// One sub-tile of an image: its column `i` and row `j` counted from the south
/// (bottom) edge, and the pixel rectangle it is cut from, whose rows run from the
/// north (top) edge.
#[derive(Debug, Clone, Copy, PartialEq, Eq, Structural)]
pub struct SubTileCrop {
    pub i: u32,
    pub j: u32,
    pub x: u32,
    pub y: u32,
    pub width: u32,
    pub height: u32,
}

/// Sub-tile `(i, j)` of an image of `width × height` cut `d_w × d_h` ways.
pub open spec fn spec_sub_tile_crop(width: u32, height: u32, d_w: u32, d_h: u32, i: int, j: int) -> SubTileCrop {
    let tile_w = width / d_w;
    let tile_h = height / d_h;
    SubTileCrop {
        i: i as u32,
        j: j as u32,
        x: (i * tile_w) as u32,
        y: ((d_h - 1 - j) * tile_h) as u32,
        width: tile_w,
        height: tile_h,
    }
}

proof fn lemma_crop_fits(n: int, d: int, i: int)
    requires
        d > 0,
        n >= 0,
        0 <= i < d,
    ensures
        0 <= i * (n / d),
        i * (n / d) + n / d <= n,
{
    lemma_fundamental_div_mod(n, d);
    let q = n / d;
    assert(q >= 0) by {
        vstd::arithmetic::div_mod::lemma_div_pos_is_pos(n, d);
    }
    assert(0 <= i * q && i * q + q <= d * q) by (nonlinear_arith)
        requires
            0 <= i < d,
            q >= 0,
    ;
}

/// The sub-tiles of an image of `width × height` cut `d_w × d_h` ways, row by row
/// from the south edge, each row west to east.
pub fn sub_tile_crops(width: u32, height: u32, d_w: u32, d_h: u32) -> (crops: Vec<SubTileCrop>)
    requires
        d_w > 0,
        d_h > 0,
        d_w * d_h <= usize::MAX,
    ensures
        crops@.len() == d_w * d_h,
        forall|k: int|
            0 <= k < crops@.len() ==> #[trigger] crops@[k] == spec_sub_tile_crop(
                width,
                height,
                d_w,
                d_h,
                k % d_w as int,
                k / d_w as int,
            ),
{
    let tile_w = width / d_w;
    let tile_h = height / d_h;
    let mut crops: Vec<SubTileCrop> = Vec::new();
    let mut j: u32 = 0;
    while j < d_h
        invariant
            d_w > 0,
            d_h > 0,
            tile_w == width / d_w,
            tile_h == height / d_h,
            j <= d_h,
            crops@.len() == j * d_w,
            forall|k: int|
                0 <= k < crops@.len() ==> #[trigger] crops@[k] == spec_sub_tile_crop(
                    width,
                    height,
                    d_w,
                    d_h,
                    k % d_w as int,
                    k / d_w as int,
                ),
        decreases d_h - j,
    {
        let mut i: u32 = 0;
        while i < d_w
            invariant
                d_w > 0,
                d_h > 0,
                tile_w == width / d_w,
                tile_h == height / d_h,
                j < d_h,
                i <= d_w,
                crops@.len() == j * d_w + i,
                forall|k: int|
                    0 <= k < crops@.len() ==> #[trigger] crops@[k] == spec_sub_tile_crop(
                        width,
                        height,
                        d_w,
                        d_h,
                        k % d_w as int,
                        k / d_w as int,
                    ),
            decreases d_w - i,
        {
            proof {
                lemma_crop_fits(width as int, d_w as int, i as int);
                lemma_crop_fits(height as int, d_h as int, (d_h - 1 - j) as int);
                lemma_fundamental_div_mod_converse(
                    (j * d_w + i) as int,
                    d_w as int,
                    j as int,
                    i as int,
                );
            }
            let crop = SubTileCrop {
                i,
                j,
                x: i * tile_w,
                y: (d_h - 1 - j) * tile_h,
                width: tile_w,
                height: tile_h,
            };
            crops.push(crop);
            i += 1;
        }
        proof {
            assert(j * d_w + d_w == (j + 1) * d_w) by (nonlinear_arith);
        }
        j += 1;
    }
    proof {
        assert(j * d_w == d_w * d_h) by (nonlinear_arith)
            requires
                j == d_h,
        ;
    }
    crops
}

/// Every sub-tile lies inside the image.
pub proof fn lemma_sub_tile_crop_inside(width: u32, height: u32, d_w: u32, d_h: u32, i: int, j: int)
    requires
        d_w > 0,
        d_h > 0,
        0 <= i < d_w,
        0 <= j < d_h,
    ensures
        spec_sub_tile_crop(width, height, d_w, d_h, i, j).x + spec_sub_tile_crop(
            width,
            height,
            d_w,
            d_h,
            i,
            j,
        ).width <= width,
        spec_sub_tile_crop(width, height, d_w, d_h, i, j).y + spec_sub_tile_crop(
            width,
            height,
            d_w,
            d_h,
            i,
            j,
        ).height <= height,
{
    lemma_crop_fits(width as int, d_w as int, i);
    lemma_crop_fits(height as int, d_h as int, d_h - 1 - j);
}

/// The file stem of sub-tile `(i, j)` of the image with stem `stem`: the stem itself
/// when the image is a single tile, else `{stem}_{i}_{j}`.
pub open spec fn spec_sub_tile_stem(stem: Seq<char>, i: u32, j: u32, single: bool) -> Seq<char> {
    if single {
        stem
    } else {
        stem + seq!['_'] + crate::text::decimal_digits(i as nat) + seq!['_']
            + crate::text::decimal_digits(j as nat)
    }
}

/// The file stem of sub-tile `(i, j)` of the image with stem `stem`.
pub fn sub_tile_stem(stem: &str, i: u32, j: u32, single: bool) -> (r: String)
    ensures
        r@ == spec_sub_tile_stem(stem@, i, j, single),
{
    let mut out = stem.to_string();
    if single {
        return out;
    }
    proof {
        reveal_strlit("_");
    }
    out.append("_");
    append_decimal(i as u64, &mut out);
    out.append("_");
    append_decimal(j as u64, &mut out);
    out
}

/// Why the parameters of a TileJSON run were refused.
#[derive(Debug, Clone, Copy, PartialEq, Eq, Structural)]
pub enum TileJsonParamError {
    /// Zoom levels above 30 do not fit `u32` tile indices.
    DepthTooHigh(u32),
    /// A parent tile is stitched from four children of half its resolution.
    OddResolution(u32),
}

/// Checks the maximum zoom level and the tile resolution of a TileJSON run.
pub fn check_tile_json_params(depth: u32, resolution: u32) -> (r: Result<(), TileJsonParamError>)
    ensures
        depth > 30 ==> r == Err::<(), TileJsonParamError>(TileJsonParamError::DepthTooHigh(depth)),
        depth <= 30 && resolution % 2 != 0 ==> r == Err::<(), TileJsonParamError>(
            TileJsonParamError::OddResolution(resolution),
        ),
        depth <= 30 && resolution % 2 == 0 ==> r is Ok,
{
    if depth > 30 {
        return Err(TileJsonParamError::DepthTooHigh(depth));
    }
    if resolution % 2 != 0 {
        return Err(TileJsonParamError::OddResolution(resolution));
    }
    Ok(())
}

/// The levels `top, top - 1, ..., 0`.
pub fn descending_levels(top: u32) -> (levels: Vec<u32>)
    requires
        top < usize::MAX,
    ensures
        levels@.len() == top + 1,
        forall|k: int| 0 <= k < levels@.len() ==> #[trigger] levels@[k] == top - k,
{
    let mut levels: Vec<u32> = Vec::new();
    let mut next: u32 = top;
    loop
        invariant_except_break
            next <= top,
            levels@.len() == top - next,
            forall|k: int| 0 <= k < levels@.len() ==> #[trigger] levels@[k] == top - k,
        ensures
            levels@.len() == top + 1,
            forall|k: int| 0 <= k < levels@.len() ==> #[trigger] levels@[k] == top - k,
        decreases next,
    {
        levels.push(next);
        if next == 0 {
            break;
        }
        next -= 1;
    }
    levels
}

/// The resume level of a TileJSON run: the one asked for, else the maximum zoom.
pub open spec fn spec_resume_level(depth: u32, resume_depth: Option<u32>) -> u32 {
    match resume_depth {
        Some(r) => r,
        None => depth,
    }
}

/// Whether a TileJSON run renders the base tiles at its maximum zoom level: unless
/// it resumes below that level.
pub fn renders_base_tiles(depth: u32, resume_depth: Option<u32>) -> (r: bool)
    ensures
        r == (spec_resume_level(depth, resume_depth) >= depth),
{
    let resume = match resume_depth {
        Some(r) => r,
        None => depth,
    };
    resume >= depth
}

/// The highest zoom level that a TileJSON run stitches from children: the resume
/// level, but at most one below the maximum zoom.
pub open spec fn spec_top_stitch_level(depth: u32, resume_depth: Option<u32>) -> u32 {
    let below = if depth == 0 {
        0
    } else {
        (depth - 1) as u32
    };
    let resume = spec_resume_level(depth, resume_depth);
    if resume < below {
        resume
    } else {
        below
    }
}

/// The zoom levels a TileJSON run stitches from their children, highest first.
pub fn stitch_zoom_levels(depth: u32, resume_depth: Option<u32>) -> (levels: Vec<u32>)
    ensures
        levels@.len() == spec_top_stitch_level(depth, resume_depth) + 1,
        forall|k: int|
            0 <= k < levels@.len() ==> #[trigger] levels@[k] == spec_top_stitch_level(
                depth,
                resume_depth,
            ) - k,
{
    let resume = match resume_depth {
        Some(r) => r,
        None => depth,
    };
    let below = depth.saturating_sub(1);
    let top = if resume < below {
        resume
    } else {
        below
    };
    descending_levels(top)
}

/// The tiles of the rectangle `x_min..=x_max` × `y_min..=y_max`, column by column.
pub open spec fn spec_tile_grid_at(x_min: u32, y_min: u32, y_max: u32, k: int) -> (u32, u32) {
    let rows = y_max - y_min + 1;
    ((x_min + k / rows) as u32, (y_min + k % rows) as u32)
}

/// The tiles of the rectangle `x_min..=x_max` × `y_min..=y_max`, column by column,
/// each column from `y_min` down to `y_max`; none when a range is empty.
pub fn xyz_tile_grid(x_min: u32, x_max: u32, y_min: u32, y_max: u32) -> (tiles: Vec<(u32, u32)>)
    requires
        x_min <= x_max && y_min <= y_max ==> (x_max - x_min + 1) * (y_max - y_min + 1)
            <= usize::MAX,
    ensures
        x_max < x_min || y_max < y_min ==> tiles@.len() == 0,
        x_min <= x_max && y_min <= y_max ==> tiles@.len() == (x_max - x_min + 1) * (y_max - y_min
            + 1),
        forall|k: int|
            0 <= k < tiles@.len() ==> #[trigger] tiles@[k] == spec_tile_grid_at(
                x_min,
                y_min,
                y_max,
                k,
            ),
{
    let mut tiles: Vec<(u32, u32)> = Vec::new();
    if x_max < x_min || y_max < y_min {
        return tiles;
    }
    let ghost rows: int = y_max - y_min + 1;
    let mut x: u64 = x_min as u64;
    while x <= x_max as u64
        invariant
            x_min <= x_max,
            y_min <= y_max,
            rows == y_max - y_min + 1,
            (x_max - x_min + 1) * rows <= usize::MAX,
            x_min <= x <= x_max + 1,
            tiles@.len() == (x - x_min) * rows,
            forall|k: int|
                0 <= k < tiles@.len() ==> #[trigger] tiles@[k] == spec_tile_grid_at(
                    x_min,
                    y_min,
                    y_max,
                    k,
                ),
        decreases x_max + 1 - x,
    {
        let mut y: u64 = y_min as u64;
        while y <= y_max as u64
            invariant
                x_min <= x <= x_max,
                y_min <= y <= y_max + 1,
                rows == y_max - y_min + 1,
                (x_max - x_min + 1) * rows <= usize::MAX,
                tiles@.len() == (x - x_min) * rows + (y - y_min),
                forall|k: int|
                    0 <= k < tiles@.len() ==> #[trigger] tiles@[k] == spec_tile_grid_at(
                        x_min,
                        y_min,
                        y_max,
                        k,
                    ),
            decreases y_max + 1 - y,
        {
            proof {
                lemma_fundamental_div_mod_converse(
                    (x - x_min) * rows + (y - y_min),
                    rows,
                    x - x_min,
                    y - y_min,
                );
                assert((x - x_min) * rows + (y - y_min) < (x_max - x_min + 1) * rows)
                    by (nonlinear_arith)
                    requires
                        x <= x_max,
                        y - y_min < rows,
                        y_min <= y,
                        x_min <= x,
                        rows > 0,
                ;
            }
            tiles.push((x as u32, y as u32));
            y += 1;
        }
        proof {
            assert((x - x_min) * rows + rows == (x + 1 - x_min) * rows) by (nonlinear_arith);
        }
        x += 1;
    }
    tiles
}

/// A child of an XYZ tile: its column and row at the next zoom level, and where its
/// half-resolution image goes in the parent's image.
#[derive(Debug, Clone, Copy, PartialEq, Eq, Structural)]
pub struct ChildTile {
    pub x: u32,
    pub y: u32,
    pub offset_x: u32,
    pub offset_y: u32,
}

/// Child `k` of tile `(x, y)`: row by row, the upper pair first.
pub open spec fn spec_child_tile(x: u32, y: u32, resolution: u32, k: int) -> ChildTile {
    let dx = k % 2;
    let dy = k / 2;
    let half = resolution / 2;
    ChildTile {
        x: (x * 2 + dx) as u32,
        y: (y * 2 + dy) as u32,
        offset_x: (dx * half) as u32,
        offset_y: (dy * half) as u32,
    }
}

/// The four children of tile `(x, y)` in the order a parent of `resolution` pixels
/// is stitched from them.
pub fn child_tiles(x: u32, y: u32, resolution: u32) -> (children: Vec<ChildTile>)
    requires
        x * 2 + 1 <= u32::MAX,
        y * 2 + 1 <= u32::MAX,
    ensures
        children@.len() == 4,
        forall|k: int|
            0 <= k < 4 ==> #[trigger] children@[k] == spec_child_tile(x, y, resolution, k),
{
    let half = resolution / 2;
    let mut children: Vec<ChildTile> = Vec::new();
    let mut dy: u32 = 0;
    while dy < 2
        invariant
            x * 2 + 1 <= u32::MAX,
            y * 2 + 1 <= u32::MAX,
            half == resolution / 2,
            dy <= 2,
            children@.len() == 2 * dy,
            forall|k: int|
                0 <= k < children@.len() ==> #[trigger] children@[k] == spec_child_tile(
                    x,
                    y,
                    resolution,
                    k,
                ),
        decreases 2 - dy,
    {
        let mut dx: u32 = 0;
        while dx < 2
            invariant
                x * 2 + 1 <= u32::MAX,
                y * 2 + 1 <= u32::MAX,
                half == resolution / 2,
                dy < 2,
                dx <= 2,
                children@.len() == 2 * dy + dx,
                forall|k: int|
                    0 <= k < children@.len() ==> #[trigger] children@[k] == spec_child_tile(
                        x,
                        y,
                        resolution,
                        k,
                    ),
            decreases 2 - dx,
        {
            proof {
                assert(dx * half <= half && dy * half <= half) by (nonlinear_arith)
                    requires
                        dx < 2,
                        dy < 2,
                ;
            }
            children.push(
                ChildTile { x: x * 2 + dx, y: y * 2 + dy, offset_x: dx * half, offset_y: dy * half },
            );
            dx += 1;
        }
        dy += 1;
    }
    children
}

/// The four children of a tile are the tiles whose parent it is, and for an even
/// resolution their half-size images cover the parent's image exactly once: each
/// parent pixel lies in the image of exactly one child.
pub proof fn lemma_children_cover_parent(x: u32, y: u32, resolution: u32, px: int, py: int)
    requires
        x * 2 + 1 <= u32::MAX,
        y * 2 + 1 <= u32::MAX,
        resolution % 2 == 0,
        0 <= px < resolution,
        0 <= py < resolution,
    ensures
        forall|k: int|
            0 <= k < 4 ==> (#[trigger] spec_child_tile(x, y, resolution, k)).x / 2 == x
                && spec_child_tile(x, y, resolution, k).y / 2 == y,
        exists|k: int|
            0 <= k < 4 && #[trigger] covers(spec_child_tile(x, y, resolution, k), resolution, px, py),
        forall|k1: int, k2: int|
            0 <= k1 < 4 && 0 <= k2 < 4 && covers(#[trigger] spec_child_tile(x, y, resolution, k1), resolution, px, py)
                && covers(#[trigger] spec_child_tile(x, y, resolution, k2), resolution, px, py) ==> k1 == k2,
{
    let half = resolution / 2;
    assert(0int % 2 == 0 && 0int / 2 == 0 && 1int % 2 == 1 && 1int / 2 == 0);
    assert(2int % 2 == 0 && 2int / 2 == 1 && 3int % 2 == 1 && 3int / 2 == 1);
    assert(1 * half == half && 0 * half == 0);
    let c0 = spec_child_tile(x, y, resolution, 0);
    let c1 = spec_child_tile(x, y, resolution, 1);
    let c2 = spec_child_tile(x, y, resolution, 2);
    let c3 = spec_child_tile(x, y, resolution, 3);
    assert(c0.offset_x == 0 && c0.offset_y == 0 && c0.x == x * 2 && c0.y == y * 2);
    assert(c1.offset_x == half && c1.offset_y == 0 && c1.x == x * 2 + 1 && c1.y == y * 2);
    assert(c2.offset_x == 0 && c2.offset_y == half && c2.x == x * 2 && c2.y == y * 2 + 1);
    assert(c3.offset_x == half && c3.offset_y == half && c3.x == x * 2 + 1 && c3.y == y * 2 + 1);
    let k = (if py < half { 0int } else { 2int }) + (if px < half { 0int } else { 1int });
    assert(covers(spec_child_tile(x, y, resolution, k), resolution, px, py));
}

/// Whether the image of `child`, of half the parent's resolution, covers parent
/// pixel `(px, py)`.
pub open spec fn covers(child: ChildTile, resolution: u32, px: int, py: int) -> bool {
    child.offset_x <= px < child.offset_x + resolution / 2 && child.offset_y <= py < child.offset_y
        + resolution / 2
}

/// Path of XYZ tile `(z, x, y)` below the output directory: `{z}/{x}/{y}.png`.
pub open spec fn spec_xyz_tile_path(z: u32, x: u32, y: u32) -> Seq<char> {
    crate::text::decimal_digits(z as nat) + seq!['/'] + crate::text::decimal_digits(x as nat)
        + seq!['/'] + crate::text::decimal_digits(y as nat) + seq!['.', 'p', 'n', 'g']
}

/// Path of XYZ tile `(z, x, y)` below the output directory.
pub fn xyz_tile_path(z: u32, x: u32, y: u32) -> (p: String)
    ensures
        p@ == spec_xyz_tile_path(z, x, y),
{
    proof {
        reveal_strlit("/");
        reveal_strlit(".png");
    }
    let mut out = String::new();
    append_decimal(z as u64, &mut out);
    out.append("/");
    append_decimal(x as u64, &mut out);
    out.append("/");
    append_decimal(y as u64, &mut out);
    out.append(".png");
    assert(out@ =~= spec_xyz_tile_path(z, x, y));
    out
}

/// The tile URL template of the TileJSON document: `{url}/{z}/{x}/{y}.png`.
pub fn tile_url_template(tile_dir_url: &str) -> (t: String)
    ensures
        t@ == tile_dir_url@ + "/{z}/{x}/{y}.png"@,
{
    let mut out = tile_dir_url.to_string();
    out.append("/{z}/{x}/{y}.png");
    out
}

/// The file name of a hierarchical tile: its key, or `R` for the root.
pub fn hierarchical_tile_name(key: &str) -> (name: String)
    ensures
        key@.len() == 0 ==> name@ == "R"@,
        key@.len() > 0 ==> name@ == key@,
{
    if key.unicode_len() == 0 {
        String::from_str("R")
    } else {
        key.to_string()
    }
}

/// Whether `pattern` is a regular expression that compiles.
pub uninterp spec fn regex_compiles(pattern: Seq<char>) -> bool;

/// Whether regular expression `pattern` matches somewhere in `haystack`.
pub uninterp spec fn regex_is_match(pattern: Seq<char>, haystack: Seq<char>) -> bool;

/// The text of capture group `group` of the first match of `pattern` in `haystack`,
/// if there is a match and the group took part in it.
pub uninterp spec fn regex_capture(pattern: Seq<char>, haystack: Seq<char>, group: usize) -> Option<
    Seq<char>,
>;

/// Tests a regular expression against a text; `None` when the pattern does not
/// compile.
///
/// Trusted: calls `regex::Regex::new` and `regex::Regex::is_match`; whether the
/// pattern compiles is a function of the pattern alone, and a pattern that compiles
/// gives whether it matches anywhere in the text, which is a function of the two texts
/// alone.
#[verifier::external_body]
fn regex_matches(pattern: &str, haystack: &str) -> (r: Option<bool>)
    ensures
        r is None <==> !regex_compiles(pattern@),
        r matches Some(b) ==> b == regex_is_match(pattern@, haystack@),
{
    match regex::Regex::new(pattern) {
        Ok(re) => Some(re.is_match(haystack)),
        Err(_) => None,
    }
}

/// Extracts a capture group of the first match of a regular expression; the outer
/// `None` when the pattern does not compile.
///
/// Trusted: calls `regex::Regex::new` and `regex::Regex::captures`; whether the
/// pattern compiles is a function of the pattern alone, and for a pattern that
/// compiles, the text of group `group` of the first match, if any, is a function of
/// the arguments alone.
#[verifier::external_body]
fn regex_group(pattern: &str, haystack: &str, group: usize) -> (r: Option<Option<String>>)
    ensures
        r is None <==> !regex_compiles(pattern@),
        r matches Some(g) ==> g.deep_view() == regex_capture(pattern@, haystack@, group),
{
    let re = match regex::Regex::new(pattern) {
        Ok(re) => re,
        Err(_) => return None,
    };
    match re.captures(haystack) {
        Some(caps) => Some(caps.get(group).map(|m| m.as_str().to_string())),
        None => Some(None),
    }
}

/// How the tiles of a satellite dataset give their bounds.
#[derive(Debug, Clone, Copy, PartialEq, Eq, Structural)]
pub enum Mode {
    /// Bounds come from each tile's `userdata.json` footprint.
    Mgrs,
    /// Bounds are encoded in the directory name, e.g. `N18E000`.
    Offset,
}

/// The files a tile directory holds in a dataset of mode `mode`.
pub open spec fn spec_dir_files(mode: Mode) -> Seq<Seq<char>> {
    match mode {
        Mode::Mgrs => seq!["B02.tif"@, "B03.tif"@, "B04.tif"@, "userdata.json"@],
        Mode::Offset => seq!["B02.tif"@, "B03.tif"@, "B04.tif"@],
    }
}

impl Mode {
    /// The names of the files read from each tile directory.
    pub fn dir_files(&self) -> (files: Vec<String>)
        ensures
            files.deep_view() == spec_dir_files(*self),
    {
        let mut files: Vec<String> = Vec::new();
        files.push(String::from_str("B02.tif"));
        files.push(String::from_str("B03.tif"));
        files.push(String::from_str("B04.tif"));
        if let Mode::Mgrs = self {
            files.push(String::from_str("userdata.json"));
        }
        assert(files.deep_view() =~= spec_dir_files(*self));
        files
    }
}

/// The pattern of cardinal-offset directory names.
pub open spec fn offset_dir_pattern() -> Seq<char> {
    "[NS]\\d+[EW]\\d+"@
}

/// Why the mode of a dataset could not be told.
#[derive(Debug, Clone, Copy, PartialEq, Eq, Structural)]
pub enum ModeError {
    /// The directory-name pattern did not compile.
    Pattern,
    /// No `userdata.json`, and the name does not look like `N18E000`.
    Undetected,
}

/// Tells the mode of a dataset from its first tile directory: whether it holds a
/// `userdata.json`, and the directory's name.
pub fn detect_mode(has_userdata: bool, dir_name: &str) -> (r: Result<Mode, ModeError>)
    ensures
        has_userdata ==> r == Ok::<Mode, ModeError>(Mode::Mgrs),
        !has_userdata ==> match r {
            Ok(m) => m == Mode::Offset && regex_is_match(offset_dir_pattern(), dir_name@),
            Err(ModeError::Undetected) => !regex_is_match(offset_dir_pattern(), dir_name@),
            Err(ModeError::Pattern) => !regex_compiles(offset_dir_pattern()),
        },
{
    if has_userdata {
        return Ok(Mode::Mgrs);
    }
    match regex_matches("[NS]\\d+[EW]\\d+", dir_name) {
        None => Err(ModeError::Pattern),
        Some(true) => Ok(Mode::Offset),
        Some(false) => Err(ModeError::Undetected),
    }
}

/// The pattern of Sentinel-2 mosaic names, with the UTM grid zone as group 1.
pub open spec fn utm_name_pattern() -> Seq<char> {
    "Sentinel-2_mosaic_2025_Q3_([0-9]{2}[A-Z]{3})"@
}

/// Why the UTM grid zone of a mosaic could not be read.
#[derive(Debug, Clone, Copy, PartialEq, Eq, Structural)]
pub enum UtmZoneError {
    /// The name pattern did not compile.
    Pattern,
    /// The name does not carry a zone.
    NotFound,
}

/// The UTM grid zone (such as `32UNE`) named in a mosaic's name.
pub fn extract_bounds_utm(name: &str) -> (r: Result<String, UtmZoneError>)
    ensures
        r matches Ok(zone) ==> regex_capture(utm_name_pattern(), name@, 1) == Some(zone@),
        r matches Err(UtmZoneError::NotFound) ==> regex_compiles(utm_name_pattern())
            && regex_capture(utm_name_pattern(), name@, 1) is None,
        r matches Err(UtmZoneError::Pattern) ==> !regex_compiles(utm_name_pattern()),
{
    match regex_group("Sentinel-2_mosaic_2025_Q3_([0-9]{2}[A-Z]{3})", name, 1) {
        None => Err(UtmZoneError::Pattern),
        Some(Some(zone)) => Ok(zone),
        Some(None) => Err(UtmZoneError::NotFound),
    }
}

/// The pattern of cardinal-offset directory names, with the latitude hemisphere,
/// latitude, longitude hemisphere and longitude as groups 1 to 4.
pub open spec fn offset_cell_pattern() -> Seq<char> {
    "([NS])(\\d+)([EW])(\\d+)"@
}

/// Why the cell of a cardinal-offset directory name could not be read.
#[derive(Debug, Clone, Copy, PartialEq, Eq, Structural)]
pub enum OffsetNameError {
    /// The name pattern did not compile.
    Pattern,
    /// The name does not hold a cardinal offset such as `N18E000`.
    NotFound,
}

/// Whether every one of the four groups of the offset pattern took part in the first
/// match in `name`.
pub open spec fn offset_groups_found(name: Seq<char>) -> bool {
    forall|k: usize| 1 <= k <= 4 ==> #[trigger] regex_capture(offset_cell_pattern(), name, k) is Some
}

/// The cell named by a cardinal-offset directory name such as `N18E000`: whether the
/// latitude is south, its digits, whether the longitude is west, and its digits.
pub fn offset_cell(dir_name: &str) -> (r: Result<(bool, String, bool, String), OffsetNameError>)
    ensures
        r is Ok <==> regex_compiles(offset_cell_pattern()) && offset_groups_found(dir_name@),
        r matches Ok((south, lat, west, lon)) ==> {
            &&& south == (regex_capture(offset_cell_pattern(), dir_name@, 1) == Some("S"@))
            &&& regex_capture(offset_cell_pattern(), dir_name@, 2) == Some(lat@)
            &&& west == (regex_capture(offset_cell_pattern(), dir_name@, 3) == Some("W"@))
            &&& regex_capture(offset_cell_pattern(), dir_name@, 4) == Some(lon@)
        },
        r matches Err(OffsetNameError::Pattern) ==> !regex_compiles(offset_cell_pattern()),
        r matches Err(OffsetNameError::NotFound) ==> regex_compiles(offset_cell_pattern())
            && !offset_groups_found(dir_name@),
{
    let pattern = "([NS])(\\d+)([EW])(\\d+)";
    let lat_hemi = match regex_group(pattern, dir_name, 1) {
        None => return Err(OffsetNameError::Pattern),
        Some(None) => return Err(OffsetNameError::NotFound),
        Some(Some(g)) => g,
    };
    let lat = match regex_group(pattern, dir_name, 2) {
        None => return Err(OffsetNameError::Pattern),
        Some(None) => return Err(OffsetNameError::NotFound),
        Some(Some(g)) => g,
    };
    let lon_hemi = match regex_group(pattern, dir_name, 3) {
        None => return Err(OffsetNameError::Pattern),
        Some(None) => return Err(OffsetNameError::NotFound),
        Some(Some(g)) => g,
    };
    let lon = match regex_group(pattern, dir_name, 4) {
        None => return Err(OffsetNameError::Pattern),
        Some(None) => return Err(OffsetNameError::NotFound),
        Some(Some(g)) => g,
    };
    proof {
        assert(offset_groups_found(dir_name@)) by {
            assert forall|k: usize| 1 <= k <= 4 implies #[trigger] regex_capture(offset_cell_pattern(), dir_name@, k) is Some by {
                assert(k == 1 || k == 2 || k == 3 || k == 4);
            }
        }
    }
    let south = str_eq(lat_hemi.as_str(), "S");
    let west = str_eq(lon_hemi.as_str(), "W");
    Ok((south, lat, west, lon))
}

/// A file a tile directory must hold.
#[derive(Debug, Clone, Copy, PartialEq, Eq, Structural)]
pub enum TileFile {
    Userdata,
    Red,
    Green,
    Blue,
}

/// The name of a tile file.
pub open spec fn spec_tile_file_name(f: TileFile) -> Seq<char> {
    match f {
        TileFile::Userdata => "userdata.json"@,
        TileFile::Red => "B04.tif"@,
        TileFile::Green => "B03.tif"@,
        TileFile::Blue => "B02.tif"@,
    }
}

impl TileFile {
    /// The file's name in the tile directory.
    pub fn name(self) -> (r: &'static str)
        ensures
            r@ == spec_tile_file_name(self),
    {
        match self {
            TileFile::Userdata => "userdata.json",
            TileFile::Red => "B04.tif",
            TileFile::Green => "B03.tif",
            TileFile::Blue => "B02.tif",
        }
    }
}

/// Why the files of a tile directory cannot be ingested.
#[derive(Debug, Clone, Copy, PartialEq, Eq, Structural)]
pub enum TileFilesError {
    /// The directory lacks this file.
    Missing(TileFile),
}

/// Takes a file out of the files read from a tile directory.
fn take_tile_file(files: &mut KeyedMap<String, Vec<u8>>, f: TileFile) -> (r: Result<Vec<u8>, TileFilesError>)
    ensures
        final(files)@ == old(files)@.remove(spec_tile_file_name(f)),
        match r {
            Ok(bytes) => old(files)@.contains_key(spec_tile_file_name(f)) && bytes == old(files)@[spec_tile_file_name(f)],
            Err(e) => e == TileFilesError::Missing(f) && !old(files)@.contains_key(spec_tile_file_name(f)),
        },
{
    match files.remove(&String::from_str(f.name())) {
        Some(bytes) => Ok(bytes),
        None => Err(TileFilesError::Missing(f)),
    }
}

/// Takes the `userdata.json` of a tile out of its files where the dataset's mode
/// reads bounds from it: `Some` of its contents in mode [`Mode::Mgrs`], which needs
/// the file; `None`, with the files left as they are, in mode [`Mode::Offset`], whose
/// bounds come from the directory name (see [`offset_cell`]).
pub fn take_userdata(mode: Mode, files: &mut KeyedMap<String, Vec<u8>>) -> (r: Result<Option<Vec<u8>>, TileFilesError>)
    ensures
        mode == Mode::Offset ==> r == Ok::<Option<Vec<u8>>, TileFilesError>(None) && final(files)@ == old(files)@,
        mode == Mode::Mgrs ==> {
            &&& final(files)@ == old(files)@.remove("userdata.json"@)
            &&& match r {
                Ok(bytes) => old(files)@.contains_key("userdata.json"@) && bytes == Some(
                    old(files)@["userdata.json"@],
                ),
                Err(e) => e == TileFilesError::Missing(TileFile::Userdata) && !old(files)@.contains_key(
                    "userdata.json"@,
                ),
            }
        },
{
    match mode {
        Mode::Offset => Ok(None),
        Mode::Mgrs => match take_tile_file(files, TileFile::Userdata) {
            Ok(bytes) => Ok(Some(bytes)),
            Err(e) => Err(e),
        },
    }
}

/// The three bands of a tile taken out of its files, red, green and blue; the first
/// band found missing, in that order, is reported.
pub fn take_bands(files: &mut KeyedMap<String, Vec<u8>>) -> (r: Result<(Vec<u8>, Vec<u8>, Vec<u8>), TileFilesError>)
    ensures
        ({
            let m = old(files)@;
            let (red, green, blue) = ("B04.tif"@, "B03.tif"@, "B02.tif"@);
            &&& !m.contains_key(red) ==> r == Err::<(Vec<u8>, Vec<u8>, Vec<u8>), TileFilesError>(
                TileFilesError::Missing(TileFile::Red),
            ) && final(files)@ == m
            &&& m.contains_key(red) && !m.contains_key(green) ==> r == Err::<
                (Vec<u8>, Vec<u8>, Vec<u8>),
                TileFilesError,
            >(TileFilesError::Missing(TileFile::Green)) && final(files)@ == m.remove(red)
            &&& m.contains_key(red) && m.contains_key(green) && !m.contains_key(blue) ==> r == Err::<
                (Vec<u8>, Vec<u8>, Vec<u8>),
                TileFilesError,
            >(TileFilesError::Missing(TileFile::Blue)) && final(files)@ == m.remove(red).remove(green)
            &&& m.contains_key(red) && m.contains_key(green) && m.contains_key(blue) ==> (r matches Ok(
                (r_bytes, g_bytes, b_bytes),
            ) && r_bytes == m[red] && g_bytes == m[green] && b_bytes == m[blue] && final(files)@ == m.remove(
                red,
            ).remove(green).remove(blue))
        }),
{
    let ghost m = files@;
    proof {
        reveal_strlit("B04.tif");
        reveal_strlit("B03.tif");
        reveal_strlit("B02.tif");
        assert("B04.tif"@ != "B03.tif"@ && "B04.tif"@ != "B02.tif"@ && "B03.tif"@ != "B02.tif"@) by {
            assert("B04.tif"@[2] != "B03.tif"@[2]);
            assert("B04.tif"@[2] != "B02.tif"@[2]);
            assert("B03.tif"@[2] != "B02.tif"@[2]);
        }
    }
    let red = take_tile_file(files, TileFile::Red)?;
    let green = take_tile_file(files, TileFile::Green)?;
    let blue = take_tile_file(files, TileFile::Blue)?;
    Ok((red, green, blue))
}

} // verus!
