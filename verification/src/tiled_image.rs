//! Images stored as a grid of equally sized tiles, and reading a pixel area out of
//! them tile by tile.
use vstd::arithmetic::div_mod::{lemma_fundamental_div_mod, lemma_fundamental_div_mod_converse};
use vstd::prelude::*;

verus! {

/// A `width × height` image with pixels of type `P`, stored row by row.
#[derive(Debug, Clone)]
pub struct Image<P> {
    pub width: u32,
    pub height: u32,
    pub pixels: Vec<P>,
}

impl<P> Image<P> {
    /// Whether the pixel buffer holds exactly one pixel per position.
    pub open spec fn wf(&self) -> bool {
        self.pixels@.len() == self.width as int * self.height as int
    }

    /// The pixel at column `x`, row `y`.
    pub open spec fn pixel(&self, x: int, y: int) -> P {
        self.pixels@[y * self.width + x]
    }
}

pub(crate) proof fn lemma_pixel_offset(width: int, height: int, x: int, y: int)
    requires
        0 <= x < width,
        0 <= y < height,
    ensures
        0 <= y * width + x < width * height,
{
    assert(0 <= y * width + x < width * height) by (nonlinear_arith)
        requires
            0 <= x < width,
            0 <= y < height,
    ;
}

proof fn lemma_pixel_offsets_distinct(width: int, x1: int, y1: int, x2: int, y2: int)
    requires
        0 <= x1 < width,
        0 <= x2 < width,
        0 <= y1,
        0 <= y2,
        x1 != x2 || y1 != y2,
    ensures
        y1 * width + x1 != y2 * width + x2,
{
    if y1 * width + x1 == y2 * width + x2 {
        lemma_fundamental_div_mod_converse(y1 * width + x1, width, y1, x1);
        lemma_fundamental_div_mod_converse(y2 * width + x2, width, y2, x2);
    }
}

impl<P: Copy> Image<P> {
    /// A `width × height` image filled with `fill`.
    pub fn new(width: u32, height: u32, fill: P) -> (img: Image<P>)
        requires
            width as int * height as int <= usize::MAX,
        ensures
            img.wf(),
            img.width == width,
            img.height == height,
            forall|i: int| 0 <= i < img.pixels@.len() ==> #[trigger] img.pixels@[i] == fill,
    {
        let n = width as usize * height as usize;
        let mut pixels: Vec<P> = Vec::new();
        let mut i: usize = 0;
        while i < n
            invariant
                i <= n,
                pixels@.len() == i,
                forall|k: int| 0 <= k < pixels@.len() ==> #[trigger] pixels@[k] == fill,
            decreases n - i,
        {
            pixels.push(fill);
            i += 1;
        }
        Image { width, height, pixels }
    }

    /// The pixel at column `x`, row `y`.
    pub fn get_pixel(&self, x: u32, y: u32) -> (p: P)
        requires
            self.wf(),
            x < self.width,
            y < self.height,
        ensures
            p == self.pixel(x as int, y as int),
    {
        let n = self.pixels.len();
        proof {
            lemma_pixel_offset(self.width as int, self.height as int, x as int, y as int);
        }
        let row_start = y as usize * self.width as usize;
        self.pixels[row_start + x as usize]
    }

    /// Sets the pixel at column `x`, row `y`.
    pub fn put_pixel(&mut self, x: u32, y: u32, p: P)
        requires
            old(self).wf(),
            x < old(self).width,
            y < old(self).height,
        ensures
            final(self).wf(),
            final(self).width == old(self).width,
            final(self).height == old(self).height,
            final(self).pixel(x as int, y as int) == p,
            forall|i: int, j: int|
                0 <= i < final(self).width && 0 <= j < final(self).height && (i != x || j != y)
                    ==> #[trigger] final(self).pixel(i, j) == old(self).pixel(i, j),
    {
        let n = self.pixels.len();
        proof {
            lemma_pixel_offset(self.width as int, self.height as int, x as int, y as int);
        }
        let row_start = y as usize * self.width as usize;
        let idx = row_start + x as usize;
        self.pixels.set(idx, p);
        proof {
            assert forall|i: int, j: int|
                0 <= i < self.width && 0 <= j < self.height && (i != x || j != y) implies #[trigger] self.pixel(
                i,
                j,
            ) == old(self).pixel(i, j) by {
                lemma_pixel_offset(self.width as int, self.height as int, i, j);
                lemma_pixel_offsets_distinct(self.width as int, i, j, x as int, y as int);
            }
        }
    }
}

/// Copies the pixels of `img` in the inclusive rectangle `img_area` into `dest`, the
/// rectangle's corner going to `dest_offset`.
pub fn copy_from_sub_image<P: Copy>(
    img: &Image<P>,
    dest: &mut Image<P>,
    img_area: ((u32, u32), (u32, u32)),
    dest_offset: (u32, u32),
)
    requires
        img.wf(),
        old(dest).wf(),
        img_area.0.0 <= img_area.1.0 ==> img_area.1.0 < img.width && img_area.1.0 - img_area.0.0
            + dest_offset.0 < old(dest).width,
        img_area.0.1 <= img_area.1.1 ==> img_area.1.1 < img.height && img_area.1.1 - img_area.0.1
            + dest_offset.1 < old(dest).height,
    ensures
        final(dest).wf(),
        final(dest).width == old(dest).width,
        final(dest).height == old(dest).height,
        forall|x: int, y: int|
            img_area.0.0 <= x <= img_area.1.0 && img_area.0.1 <= y <= img_area.1.1
                ==> #[trigger] final(dest).pixel(
                x - img_area.0.0 + dest_offset.0,
                y - img_area.0.1 + dest_offset.1,
            ) == img.pixel(x, y),
        forall|i: int, j: int|
            0 <= i < final(dest).width && 0 <= j < final(dest).height && !(dest_offset.0 <= i
                <= img_area.1.0 - img_area.0.0 + dest_offset.0 && dest_offset.1 <= j
                <= img_area.1.1 - img_area.0.1 + dest_offset.1) ==> #[trigger] final(dest).pixel(
                i,
                j,
            ) == old(dest).pixel(i, j),
{
    let ((x0, y0), (x1, y1)) = img_area;
    let (ox, oy) = dest_offset;
    if x0 > x1 || y0 > y1 {
        return;
    }
    let ghost start = *dest;
    let mut x: u32 = x0;
    while x <= x1
        invariant
            x0 <= x1,
            y0 <= y1,
            x0 <= x <= x1 + 1,
            x1 < img.width,
            y1 < img.height,
            x1 - x0 + ox < dest.width,
            y1 - y0 + oy < dest.height,
            img.wf(),
            dest.wf(),
            start.wf(),
            dest.width == start.width,
            dest.height == start.height,
            forall|px: int, py: int|
                x0 <= px < x && y0 <= py <= y1 ==> #[trigger] dest.pixel(px - x0 + ox, py - y0 + oy)
                    == img.pixel(px, py),
            forall|i: int, j: int|
                0 <= i < dest.width && 0 <= j < dest.height && !(ox <= i < x - x0 + ox && oy <= j
                    <= y1 - y0 + oy) ==> #[trigger] dest.pixel(i, j) == start.pixel(i, j),
        decreases x1 + 1 - x,
    {
        let mut y: u32 = y0;
        while y <= y1
            invariant
                x0 <= x <= x1,
                y0 <= y1,
                y0 <= y <= y1 + 1,
                x1 < img.width,
                y1 < img.height,
                x1 - x0 + ox < dest.width,
                y1 - y0 + oy < dest.height,
                img.wf(),
                dest.wf(),
                start.wf(),
                dest.width == start.width,
                dest.height == start.height,
                forall|px: int, py: int|
                    (x0 <= px < x && y0 <= py <= y1) || (px == x && y0 <= py < y) ==> #[trigger] dest.pixel(
                        px - x0 + ox,
                        py - y0 + oy,
                    ) == img.pixel(px, py),
                forall|i: int, j: int|
                    0 <= i < dest.width && 0 <= j < dest.height && !(ox <= i < x - x0 + ox && oy
                        <= j <= y1 - y0 + oy) && !(i == x - x0 + ox && oy <= j < y - y0 + oy)
                        ==> #[trigger] dest.pixel(i, j) == start.pixel(i, j),
            decreases y1 + 1 - y,
        {
            let p = img.get_pixel(x, y);
            let dx = x - x0 + ox;
            let dy = y - y0 + oy;
            let ghost before = *dest;
            dest.put_pixel(dx, dy, p);
            proof {
                assert forall|px: int, py: int|
                    (x0 <= px < x && y0 <= py <= y1) || (px == x && y0 <= py < y + 1) implies #[trigger] dest.pixel(
                    px - x0 + ox,
                    py - y0 + oy,
                ) == img.pixel(px, py) by {
                    if px != x || py != y {
                        assert(before.pixel(px - x0 + ox, py - y0 + oy) == img.pixel(px, py));
                    }
                }
            }
            y += 1;
        }
        x += 1;
    }
}

/// The metadata stored beside each image of a distributed image: the area it covers.
#[derive(Debug, Clone, Copy, PartialEq)]
pub struct TileMeta<B> {
    pub bounds: B,
}

/// An image made of `tile_count` tiles of `tile_resolution` pixels each, loaded from
/// `source` on demand.
pub struct TiledImage<S> {
    pub source: S,
    pub tile_resolution: (u32, u32),
    pub tile_count: (u32, u32),
}

/// The part of an area that lies on one tile: the tile, the inclusive rectangle of
/// the tile's own pixels, and the same rectangle in whole-image pixels.
#[derive(Debug, Clone, Copy, PartialEq, Eq)]
pub struct TiledImageChunk {
    pub tile_index: (u32, u32),
    pub tile_area: ((u32, u32), (u32, u32)),
    pub area: ((u32, u32), (u32, u32)),
}

/// `max(v, 0)`.
pub open spec fn saturate(v: int) -> int {
    if v < 0 {
        0
    } else {
        v
    }
}

/// Along one axis, the tile-local pixel of whole-image pixel `p` on tile `i`: clamped
/// to the tile.
pub open spec fn spec_local(p: int, res: int, i: int) -> int {
    let v = saturate(p - res * i);
    if v < res - 1 {
        v
    } else {
        res - 1
    }
}

/// Number of tiles an inclusive pixel range `a0..=a1` touches along one axis.
pub open spec fn spec_tile_span(a0: int, a1: int, res: int) -> int {
    if a0 / res <= a1 / res {
        a1 / res - a0 / res + 1
    } else {
        0
    }
}

/// Chunk `k` of the area `area` on tiles of `res` pixels, tiles taken column by
/// column.
pub open spec fn spec_chunk(area: ((u32, u32), (u32, u32)), res: (u32, u32), k: int) -> TiledImageChunk {
    let rows = spec_tile_span(area.0.1 as int, area.1.1 as int, res.1 as int);
    let tx = area.0.0 / res.0 + k / rows;
    let ty = area.0.1 / res.1 + k % rows;
    let lo = (spec_local(area.0.0 as int, res.0 as int, tx), spec_local(area.0.1 as int, res.1 as int, ty));
    let hi = (spec_local(area.1.0 as int, res.0 as int, tx), spec_local(area.1.1 as int, res.1 as int, ty));
    TiledImageChunk {
        tile_index: (tx as u32, ty as u32),
        tile_area: ((lo.0 as u32, lo.1 as u32), (hi.0 as u32, hi.1 as u32)),
        area: (
            ((tx * res.0 + lo.0) as u32, (ty * res.1 + lo.1) as u32),
            ((tx * res.0 + hi.0) as u32, (ty * res.1 + hi.1) as u32),
        ),
    }
}

/// Along one axis, tile `i` of a range's tiles covers whole-image pixels from the
/// larger of the range's start and the tile's first pixel to the smaller of the
/// range's end and the tile's last pixel.
pub proof fn lemma_local_bounds(a0: int, a1: int, res: int, i: int)
    requires
        res > 0,
        0 <= a0 <= a1,
        a0 / res <= i <= a1 / res,
    ensures
        res * i + spec_local(a0, res, i) == if a0 < res * i {
            res * i
        } else {
            a0
        },
        res * i + spec_local(a1, res, i) == if a1 < res * i + res - 1 {
            a1
        } else {
            res * i + res - 1
        },
        0 <= spec_local(a0, res, i) <= spec_local(a1, res, i) < res,
        res * i <= a1,
{
    lemma_fundamental_div_mod(a0, res);
    lemma_fundamental_div_mod(a1, res);
    let q0 = a0 / res;
    let q1 = a1 / res;
    assert(a0 < res * i + res) by (nonlinear_arith)
        requires
            a0 == res * q0 + a0 % res,
            a0 % res < res,
            q0 <= i,
            res > 0,
    ;
    assert(res * i <= a1) by (nonlinear_arith)
        requires
            a1 == res * q1 + a1 % res,
            a1 % res >= 0,
            i <= q1,
            res > 0,
    ;
}

/// The chunks of a range along one axis follow each other without gap or overlap,
/// from the range's start to its end.
pub proof fn lemma_chunks_partition(a0: int, a1: int, res: int, i: int)
    requires
        res > 0,
        0 <= a0 <= a1,
        a0 / res <= i <= a1 / res,
    ensures
        i == a0 / res ==> res * i + spec_local(a0, res, i) == a0,
        i == a1 / res ==> res * i + spec_local(a1, res, i) == a1,
        i < a1 / res ==> res * i + spec_local(a1, res, i) + 1 == res * (i + 1) + spec_local(
            a0,
            res,
            i + 1,
        ),
{
    lemma_local_bounds(a0, a1, res, i);
    lemma_fundamental_div_mod(a0, res);
    lemma_fundamental_div_mod(a1, res);
    if i == a0 / res {
        assert(res * i <= a0) by (nonlinear_arith)
            requires
                a0 == res * i + a0 % res,
                a0 % res >= 0,
        ;
    }
    if i == a1 / res {
        assert(a1 < res * i + res) by (nonlinear_arith)
            requires
                a1 == res * i + a1 % res,
                a1 % res < res,
        ;
    }
    if i < a1 / res {
        lemma_local_bounds(a0, a1, res, i + 1);
        assert(res * (i + 1) == res * i + res) by (nonlinear_arith);
        assert(res * i + res - 1 < a1) by (nonlinear_arith)
            requires
                a1 == res * (a1 / res) + a1 % res,
                a1 % res >= 0,
                i + 1 <= a1 / res,
                res > 0,
        ;
        assert(a0 < res * (i + 1)) by (nonlinear_arith)
            requires
                a0 == res * (a0 / res) + a0 % res,
                a0 % res < res,
                a0 / res <= i,
                res > 0,
        ;
    }
}

fn local_pixel(p: u32, res: u32, i: u32) -> (v: u32)
    requires
        res > 0,
        res * i <= u32::MAX,
    ensures
        v == spec_local(p as int, res as int, i as int),
{
    let v = p.saturating_sub(res * i);
    if v < res - 1 {
        v
    } else {
        res - 1
    }
}

impl<S> TiledImage<S> {
    /// The parts of the inclusive pixel rectangle `area` that lie on each tile it
    /// touches, tiles taken column by column.
    pub fn area_chunks(&self, area: ((u32, u32), (u32, u32))) -> (chunks: Vec<TiledImageChunk>)
        requires
            self.tile_resolution.0 > 0,
            self.tile_resolution.1 > 0,
            spec_tile_span(area.0.0 as int, area.1.0 as int, self.tile_resolution.0 as int)
                * spec_tile_span(area.0.1 as int, area.1.1 as int, self.tile_resolution.1 as int)
                <= usize::MAX,
        ensures
            chunks@.len() == spec_tile_span(
                area.0.0 as int,
                area.1.0 as int,
                self.tile_resolution.0 as int,
            ) * spec_tile_span(area.0.1 as int, area.1.1 as int, self.tile_resolution.1 as int),
            forall|k: int|
                0 <= k < chunks@.len() ==> #[trigger] chunks@[k] == spec_chunk(
                    area,
                    self.tile_resolution,
                    k,
                ),
    {
        let (rx, ry) = self.tile_resolution;
        let (sx, sy) = (area.0.0 / rx, area.0.1 / ry);
        let (ex, ey) = (area.1.0 / rx, area.1.1 / ry);
        let ghost cols = spec_tile_span(area.0.0 as int, area.1.0 as int, rx as int);
        let ghost rows = spec_tile_span(area.0.1 as int, area.1.1 as int, ry as int);
        let mut chunks: Vec<TiledImageChunk> = Vec::new();
        if sx > ex || sy > ey {
            proof {
                assert(cols * rows == 0) by (nonlinear_arith)
                    requires
                        cols == 0 || rows == 0,
                ;
            }
            return chunks;
        }
        let mut x: u64 = sx as u64;
        while x <= ex as u64
            invariant
                rx > 0,
                ry > 0,
                sx == area.0.0 / rx,
                sy == area.0.1 / ry,
                ex == area.1.0 / rx,
                ey == area.1.1 / ry,
                sx <= ex,
                sy <= ey,
                cols == ex - sx + 1,
                rows == ey - sy + 1,
                self.tile_resolution == (rx, ry),
                sx <= x <= ex + 1,
                chunks@.len() == (x - sx) * rows,
                forall|k: int|
                    0 <= k < chunks@.len() ==> #[trigger] chunks@[k] == spec_chunk(
                        area,
                        self.tile_resolution,
                        k,
                    ),
            decreases ex + 1 - x,
        {
            let mut y: u64 = sy as u64;
            while y <= ey as u64
                invariant
                    rx > 0,
                    ry > 0,
                    sx == area.0.0 / rx,
                    sy == area.0.1 / ry,
                    ex == area.1.0 / rx,
                    ey == area.1.1 / ry,
                    sx <= x <= ex,
                    sy <= ey,
                    rows == ey - sy + 1,
                    self.tile_resolution == (rx, ry),
                    sy <= y <= ey + 1,
                    chunks@.len() == (x - sx) * rows + (y - sy),
                    forall|k: int|
                        0 <= k < chunks@.len() ==> #[trigger] chunks@[k] == spec_chunk(
                            area,
                            self.tile_resolution,
                            k,
                        ),
                decreases ey + 1 - y,
            {
                let tx = x as u32;
                let ty = y as u32;
                proof {
                    lemma_fundamental_div_mod(area.1.0 as int, rx as int);
                    lemma_fundamental_div_mod(area.1.1 as int, ry as int);
                    assert(rx * tx <= area.1.0) by (nonlinear_arith)
                        requires
                            area.1.0 == rx * ex + area.1.0 % rx,
                            area.1.0 % rx >= 0,
                            tx <= ex,
                            rx > 0,
                    ;
                    assert(ry * ty <= area.1.1) by (nonlinear_arith)
                        requires
                            area.1.1 == ry * ey + area.1.1 % ry,
                            area.1.1 % ry >= 0,
                            ty <= ey,
                            ry > 0,
                    ;
                }
                let base_x = rx * tx;
                let base_y = ry * ty;
                let lo_x = local_pixel(area.0.0, rx, tx);
                let lo_y = local_pixel(area.0.1, ry, ty);
                let hi_x = local_pixel(area.1.0, rx, tx);
                let hi_y = local_pixel(area.1.1, ry, ty);
                proof {
                    let k = (x - sx) * rows + (y - sy);
                    lemma_fundamental_div_mod_converse(k, rows, (x - sx) as int, (y - sy) as int);
                    assert(tx * rx == rx * tx && ty * ry == ry * ty) by (nonlinear_arith);
                }
                chunks.push(
                    TiledImageChunk {
                        tile_index: (tx, ty),
                        tile_area: ((lo_x, lo_y), (hi_x, hi_y)),
                        area: ((base_x + lo_x, base_y + lo_y), (base_x + hi_x, base_y + hi_y)),
                    },
                );
                y += 1;
            }
            proof {
                assert((x - sx) * rows + rows == (x + 1 - sx) * rows) by (nonlinear_arith);
            }
            x += 1;
        }
        chunks
    }
}

/// Where the tiles of a [`TiledImage`] come from.
pub trait TiledImageSource<P> {
    type Error;

    /// The tile at `tile_index`, as a successful load gives it.
    spec fn spec_tile(&self, tile_index: (u32, u32)) -> Image<P>;

    /// Whether loading the tile at `tile_index` may fail; a load of any other tile
    /// succeeds.
    spec fn load_may_fail(&self, tile_index: (u32, u32)) -> bool;

    /// Loads the tile at `tile_index`.
    fn load_tile(&self, tile_index: (u32, u32)) -> (r: Result<Image<P>, Self::Error>)
        ensures
            r is Err ==> self.load_may_fail(tile_index),
            r matches Ok(img) ==> img.width == self.spec_tile(tile_index).width && img.height
                == self.spec_tile(tile_index).height && img.pixels@ == self.spec_tile(
                tile_index,
            ).pixels@,
    ;
}

/// Whether every tile the source gives is a well-formed image of the tile size.
pub open spec fn tiles_have_resolution<P, S: TiledImageSource<P>>(source: S, res: (u32, u32)) -> bool {
    forall|t: (u32, u32)|
        #![trigger source.spec_tile(t)]
        source.spec_tile(t).wf() && source.spec_tile(t).width == res.0 && source.spec_tile(t).height
            == res.1
}

/// The pixel at whole-image position `(x, y)` of a tiled image: pixel `(x % rx,
/// y % ry)` of tile `(x / rx, y / ry)`.
pub open spec fn spec_tiled_pixel<P, S: TiledImageSource<P>>(source: S, res: (u32, u32), x: int, y: int) -> P {
    source.spec_tile(((x / res.0 as int) as u32, (y / res.1 as int) as u32)).pixel(
        x % res.0 as int,
        y % res.1 as int,
    )
}

/// Whether the inclusive pixel rectangle `area` touches the tile at `t`, on tiles
/// of `res` pixels.
pub open spec fn touches_tile(area: ((u32, u32), (u32, u32)), res: (u32, u32), t: (u32, u32)) -> bool {
    &&& area.0.0 / res.0 <= t.0 <= area.1.0 / res.0
    &&& area.0.1 / res.1 <= t.1 <= area.1.1 / res.1
}

/// Whether pixel `(x, y)` lies in the whole-image rectangle of `chunk`.
pub open spec fn in_chunk(chunk: TiledImageChunk, x: int, y: int) -> bool {
    chunk.area.0.0 <= x <= chunk.area.1.0 && chunk.area.0.1 <= y <= chunk.area.1.1
}

proof fn lemma_chunk_facts(area: ((u32, u32), (u32, u32)), res: (u32, u32), k: int, rows: int, cols: int)
    requires
        res.0 > 0,
        res.1 > 0,
        area.0.0 <= area.1.0,
        area.0.1 <= area.1.1,
        rows == spec_tile_span(area.0.1 as int, area.1.1 as int, res.1 as int),
        cols == spec_tile_span(area.0.0 as int, area.1.0 as int, res.0 as int),
        0 <= k < cols * rows,
    ensures
        ({
            let c = spec_chunk(area, res, k);
            &&& c.tile_area.0.0 <= c.tile_area.1.0 < res.0
            &&& c.tile_area.0.1 <= c.tile_area.1.1 < res.1
            &&& c.area.0.0 == c.tile_index.0 * res.0 + c.tile_area.0.0
            &&& c.area.1.0 == c.tile_index.0 * res.0 + c.tile_area.1.0
            &&& c.area.0.1 == c.tile_index.1 * res.1 + c.tile_area.0.1
            &&& c.area.1.1 == c.tile_index.1 * res.1 + c.tile_area.1.1
            &&& area.0.0 <= c.area.0.0
            &&& c.area.1.0 <= area.1.0
            &&& area.0.1 <= c.area.0.1
            &&& c.area.1.1 <= area.1.1
            &&& c.tile_index.0 == area.0.0 / res.0 + k / rows
            &&& c.tile_index.1 == area.0.1 / res.1 + k % rows
            &&& touches_tile(area, res, c.tile_index)
        }),
{
    let rx = res.0 as int;
    let ry = res.1 as int;
    vstd::arithmetic::div_mod::lemma_div_is_ordered(area.0.0 as int, area.1.0 as int, rx);
    vstd::arithmetic::div_mod::lemma_div_is_ordered(area.0.1 as int, area.1.1 as int, ry);
    assert(rows > 0 && cols > 0);
    let i = k / rows;
    let j = k % rows;
    lemma_fundamental_div_mod(k, rows);
    assert(0 <= i < cols) by (nonlinear_arith)
        requires
            k == rows * i + j,
            0 <= j < rows,
            0 <= k < cols * rows,
            rows > 0,
    ;
    let tx = area.0.0 as int / rx + i;
    let ty = area.0.1 as int / ry + j;
    lemma_local_bounds(area.0.0 as int, area.1.0 as int, rx, tx);
    lemma_local_bounds(area.0.1 as int, area.1.1 as int, ry, ty);
    assert(tx * rx == rx * tx && ty * ry == ry * ty) by (nonlinear_arith);
}

proof fn lemma_chunk_of_pixel(area: ((u32, u32), (u32, u32)), res: (u32, u32), x: int, y: int, rows: int, cols: int) -> (k: int)
    requires
        res.0 > 0,
        res.1 > 0,
        area.0.0 <= x <= area.1.0,
        area.0.1 <= y <= area.1.1,
        rows == spec_tile_span(area.0.1 as int, area.1.1 as int, res.1 as int),
        cols == spec_tile_span(area.0.0 as int, area.1.0 as int, res.0 as int),
    ensures
        0 <= k < cols * rows,
        in_chunk(spec_chunk(area, res, k), x, y),
        spec_chunk(area, res, k).tile_index == ((x / res.0 as int) as u32, (y / res.1 as int) as u32),
{
    let rx = res.0 as int;
    let ry = res.1 as int;
    vstd::arithmetic::div_mod::lemma_div_is_ordered(area.0.0 as int, x, rx);
    vstd::arithmetic::div_mod::lemma_div_is_ordered(x, area.1.0 as int, rx);
    vstd::arithmetic::div_mod::lemma_div_is_ordered(area.0.1 as int, y, ry);
    vstd::arithmetic::div_mod::lemma_div_is_ordered(y, area.1.1 as int, ry);
    let i = x / rx - area.0.0 as int / rx;
    let j = y / ry - area.0.1 as int / ry;
    let k = i * rows + j;
    lemma_fundamental_div_mod_converse(k, rows, i, j);
    assert(0 <= k < cols * rows) by (nonlinear_arith)
        requires
            k == i * rows + j,
            0 <= i < cols,
            0 <= j < rows,
    ;
    lemma_local_bounds(area.0.0 as int, area.1.0 as int, rx, x / rx);
    lemma_local_bounds(area.0.1 as int, area.1.1 as int, ry, y / ry);
    lemma_fundamental_div_mod(x, rx);
    lemma_fundamental_div_mod(y, ry);
    assert((x / rx) * rx == rx * (x / rx) && (y / ry) * ry == ry * (y / ry)) by (nonlinear_arith);
    k
}

proof fn lemma_chunks_disjoint(area: ((u32, u32), (u32, u32)), res: (u32, u32), k1: int, k2: int, x: int, y: int, rows: int, cols: int)
    requires
        res.0 > 0,
        res.1 > 0,
        area.0.0 <= area.1.0,
        area.0.1 <= area.1.1,
        rows == spec_tile_span(area.0.1 as int, area.1.1 as int, res.1 as int),
        cols == spec_tile_span(area.0.0 as int, area.1.0 as int, res.0 as int),
        0 <= k1 < cols * rows,
        0 <= k2 < cols * rows,
        k1 != k2,
        in_chunk(spec_chunk(area, res, k1), x, y),
    ensures
        !in_chunk(spec_chunk(area, res, k2), x, y),
{
    lemma_chunk_facts(area, res, k1, rows, cols);
    lemma_chunk_facts(area, res, k2, rows, cols);
    let c1 = spec_chunk(area, res, k1);
    let c2 = spec_chunk(area, res, k2);
    if in_chunk(c2, x, y) {
        let rx = res.0 as int;
        let ry = res.1 as int;
        lemma_fundamental_div_mod_converse(x, rx, c1.tile_index.0 as int, x - c1.tile_index.0 * rx);
        lemma_fundamental_div_mod_converse(x, rx, c2.tile_index.0 as int, x - c2.tile_index.0 * rx);
        lemma_fundamental_div_mod_converse(y, ry, c1.tile_index.1 as int, y - c1.tile_index.1 * ry);
        lemma_fundamental_div_mod_converse(y, ry, c2.tile_index.1 as int, y - c2.tile_index.1 * ry);
        assert(c1.tile_index.0 * rx == rx * c1.tile_index.0 && c2.tile_index.0 * rx == rx
            * c2.tile_index.0) by (nonlinear_arith);
        assert(c1.tile_index.1 * ry == ry * c1.tile_index.1 && c2.tile_index.1 * ry == ry
            * c2.tile_index.1) by (nonlinear_arith);
        lemma_fundamental_div_mod(k1, rows);
        lemma_fundamental_div_mod(k2, rows);
    }
}

impl<S> TiledImage<S> {
    /// Reads the inclusive pixel rectangle `area` out of the tiles it touches.
    pub fn load_sub_image<P: Copy>(&self, area: ((u32, u32), (u32, u32)), fill: P) -> (r: Result<
        Image<P>,
        S::Error,
    >) where S: TiledImageSource<P>
        requires
            self.tile_resolution.0 > 0,
            self.tile_resolution.1 > 0,
            area.0.0 <= area.1.0,
            area.0.1 <= area.1.1,
            area.1.0 - area.0.0 < u32::MAX,
            area.1.1 - area.0.1 < u32::MAX,
            (area.1.0 - area.0.0 + 1) * (area.1.1 - area.0.1 + 1) <= usize::MAX,
            spec_tile_span(area.0.0 as int, area.1.0 as int, self.tile_resolution.0 as int)
                * spec_tile_span(area.0.1 as int, area.1.1 as int, self.tile_resolution.1 as int)
                <= usize::MAX,
            tiles_have_resolution(self.source, self.tile_resolution),
        ensures
            r matches Ok(out) ==> {
                &&& out.wf()
                &&& out.width == area.1.0 - area.0.0 + 1
                &&& out.height == area.1.1 - area.0.1 + 1
                &&& forall|x: int, y: int|
                    area.0.0 <= x <= area.1.0 && area.0.1 <= y <= area.1.1 ==> #[trigger] out.pixel(
                        x - area.0.0,
                        y - area.0.1,
                    ) == spec_tiled_pixel(self.source, self.tile_resolution, x, y)
            },
            r is Err ==> exists|t: (u32, u32)|
                touches_tile(area, self.tile_resolution, t) && #[trigger] self.source.load_may_fail(t),
    {
        let res = self.tile_resolution;
        let mut out = Image::new(area.1.0 - area.0.0 + 1, area.1.1 - area.0.1 + 1, fill);
        let chunks = self.area_chunks(area);
        let ghost rows = spec_tile_span(area.0.1 as int, area.1.1 as int, res.1 as int);
        let ghost cols = spec_tile_span(area.0.0 as int, area.1.0 as int, res.0 as int);
        let mut k: usize = 0;
        while k < chunks.len()
            invariant
                res == self.tile_resolution,
                res.0 > 0,
                res.1 > 0,
                area.0.0 <= area.1.0,
                area.0.1 <= area.1.1,
                tiles_have_resolution(self.source, res),
                rows == spec_tile_span(area.0.1 as int, area.1.1 as int, res.1 as int),
                cols == spec_tile_span(area.0.0 as int, area.1.0 as int, res.0 as int),
                chunks@.len() == cols * rows,
                forall|i: int| 0 <= i < chunks@.len() ==> #[trigger] chunks@[i] == spec_chunk(area, res, i),
                k <= chunks@.len(),
                out.wf(),
                out.width == area.1.0 - area.0.0 + 1,
                out.height == area.1.1 - area.0.1 + 1,
                forall|i: int, x: int, y: int|
                    0 <= i < k && in_chunk(#[trigger] spec_chunk(area, res, i), x, y) ==> #[trigger] out.pixel(
                        x - area.0.0,
                        y - area.0.1,
                    ) == spec_tiled_pixel(self.source, res, x, y),
            decreases chunks@.len() - k,
        {
            let chunk = chunks[k];
            proof {
                lemma_chunk_facts(area, res, k as int, rows, cols);
            }
            let tile = match self.source.load_tile(chunk.tile_index) {
                Ok(t) => t,
                Err(e) => {
                    proof {
                        assert(touches_tile(area, res, chunk.tile_index));
                    }
                    return Err(e);
                },
            };
            let ghost before = out;
            let offset = (chunk.area.0.0 - area.0.0, chunk.area.0.1 - area.0.1);
            copy_from_sub_image(&tile, &mut out, chunk.tile_area, offset);
            proof {
                let c = spec_chunk(area, res, k as int);
                let st = self.source.spec_tile(c.tile_index);
                assert forall|i: int, x: int, y: int|
                    0 <= i < k + 1 && in_chunk(#[trigger] spec_chunk(area, res, i), x, y) implies #[trigger] out.pixel(
                    x - area.0.0,
                    y - area.0.1,
                ) == spec_tiled_pixel(self.source, res, x, y) by {
                    if i == k {
                        let lx = x - c.tile_index.0 * res.0;
                        let ly = y - c.tile_index.1 * res.1;
                        assert(out.pixel(lx - c.tile_area.0.0 + offset.0, ly - c.tile_area.0.1 + offset.1)
                            == tile.pixel(lx, ly));
                        assert(tile.pixel(lx, ly) == st.pixel(lx, ly));
                        lemma_fundamental_div_mod_converse(x, res.0 as int, c.tile_index.0 as int, lx);
                        lemma_fundamental_div_mod_converse(y, res.1 as int, c.tile_index.1 as int, ly);
                        assert(c.tile_index.0 * res.0 == res.0 * c.tile_index.0) by (nonlinear_arith);
                        assert(c.tile_index.1 * res.1 == res.1 * c.tile_index.1) by (nonlinear_arith);
                    } else {
                        lemma_chunks_disjoint(area, res, i, k as int, x, y, rows, cols);
                        lemma_chunk_facts(area, res, i, rows, cols);
                        assert(before.pixel(x - area.0.0, y - area.0.1) == spec_tiled_pixel(self.source, res, x, y));
                    }
                }
            }
            k += 1;
        }
        proof {
            assert forall|x: int, y: int|
                area.0.0 <= x <= area.1.0 && area.0.1 <= y <= area.1.1 implies #[trigger] out.pixel(
                x - area.0.0,
                y - area.0.1,
            ) == spec_tiled_pixel(self.source, res, x, y) by {
                let i = lemma_chunk_of_pixel(area, res, x, y, rows, cols);
                assert(in_chunk(spec_chunk(area, res, i), x, y));
            }
        }
        Ok(out)
    }
}

} // verus!
