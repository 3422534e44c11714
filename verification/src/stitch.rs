//! Stitching a parent XYZ tile out of the encoded images of its four children: each
//! present child is decoded, resized to half the parent's resolution and laid over
//! its quadrant of a transparent parent.
use crate::ingest::spec_child_tile;
use crate::tiled_image::{lemma_pixel_offset, Image};
use vstd::prelude::*;

verus! {

/// The resampling filter used to shrink a child tile.
#[derive(Debug, Clone, Copy, PartialEq, Eq, Structural)]
pub enum ResizeFilter {
    Nearest,
    Triangle,
    CatmullRom,
    Gaussian,
    Lanczos3,
}

/// Width, height and row-by-row RGBA pixels of the image that `bytes` encode, if they
/// decode.
pub uninterp spec fn decoded_rgba(bytes: Seq<u8>) -> Option<(u32, u32, Seq<[u8; 4]>)>;

/// Whether resizing with `filter` uses only arithmetic whose results the platform
/// fixes: the box and triangle kernels. The other kernels call `sin`, `exp` or
/// `powi`, whose precision std leaves open.
pub open spec fn resize_is_reproducible(filter: ResizeFilter) -> bool {
    filter is Nearest || filter is Triangle
}

/// The row-by-row pixels of a `width × height` RGBA image resized to
/// `new_width × new_height` with `filter`, for a reproducible filter.
pub uninterp spec fn resized_rgba(width: u32, height: u32, pixels: Seq<[u8; 4]>, new_width: u32, new_height: u32, filter: ResizeFilter) -> Seq<[u8; 4]>;

/// RGBA pixel `top` composited over `bottom`.
pub uninterp spec fn blended_rgba(bottom: [u8; 4], top: [u8; 4]) -> [u8; 4];

/// Decodes an encoded image into RGBA pixels; `None` when the bytes do not decode.
///
/// Trusted: calls `image::load_from_memory`, which guesses the format from the bytes
/// and decodes them, and `DynamicImage::to_rgba8`; both are functions of the bytes
/// alone, and the buffer of an `RgbaImage` holds one pixel per position.
#[verifier::external_body]
fn decode_rgba(bytes: &[u8]) -> (r: Option<Image<[u8; 4]>>)
    ensures
        r is None <==> decoded_rgba(bytes@) is None,
        r matches Some(img) ==> img.wf() && decoded_rgba(bytes@) == Some(
            (img.width, img.height, img.pixels@),
        ),
{
    match image::load_from_memory(bytes) {
        Ok(img) => {
            let img = img.to_rgba8();
            Some(Image { width: img.width(), height: img.height(), pixels: img.pixels().map(|p| p.0).collect() })
        },
        Err(_) => None,
    }
}

/// Whether resizing a `width × height` image to `new_width × new_height` allocates
/// buffers that fit in memory: the resized image, and, where resampling is needed, an
/// intermediate of four `f32` channels per pixel.
pub open spec fn resize_fits(width: u32, height: u32, new_width: u32, new_height: u32) -> bool {
    &&& new_width as int * new_height as int * 4 <= isize::MAX
    &&& (width > 0 && height > 0 && (width != new_width || height != new_height)) ==> width as int
        * new_height as int * 16 <= isize::MAX
}

/// Resizes an RGBA image.
///
/// Trusted: calls `image::imageops::resize`, whose result has the requested size, and
/// is a copy of the image when that already has the requested size, whatever the
/// filter. With
/// the nearest or triangle filter its pixels depend on the image and the arguments
/// alone; with the other filters they rest on `f32::sin`, `f32::exp` and `f32::powi`,
/// whose precision may differ between platforms and calls, and nothing is said of
/// them. It panics when a buffer it allocates does not fit in memory, which
/// `requires` leaves out.
#[verifier::external_body]
fn resize_rgba(img: &Image<[u8; 4]>, new_width: u32, new_height: u32, filter: ResizeFilter) -> (r: Image<[u8; 4]>)
    requires
        img.wf(),
        resize_fits(img.width, img.height, new_width, new_height),
    ensures
        r.wf(),
        r.width == new_width,
        r.height == new_height,
        resize_is_reproducible(filter) ==> r.pixels@ == resized_rgba(
            img.width,
            img.height,
            img.pixels@,
            new_width,
            new_height,
            filter,
        ),
        img.width == new_width && img.height == new_height ==> r.pixels@ == img.pixels@,
{
    let raw: Vec<u8> = img.pixels.iter().flat_map(|p| p.iter().copied()).collect();
    let buf = image::RgbaImage::from_raw(img.width, img.height, raw).expect("one pixel per position");
    let filter = match filter {
        ResizeFilter::Nearest => image::imageops::FilterType::Nearest,
        ResizeFilter::Triangle => image::imageops::FilterType::Triangle,
        ResizeFilter::CatmullRom => image::imageops::FilterType::CatmullRom,
        ResizeFilter::Gaussian => image::imageops::FilterType::Gaussian,
        ResizeFilter::Lanczos3 => image::imageops::FilterType::Lanczos3,
    };
    let out = image::imageops::resize(&buf, new_width, new_height, filter);
    Image { width: out.width(), height: out.height(), pixels: out.pixels().map(|p| p.0).collect() }
}

/// Composites RGBA pixel `top` over `bottom`.
///
/// Trusted: calls `image::Pixel::blend` on `image::Rgba<u8>`, which depends on the two
/// pixels alone, keeps `bottom` when `top` is fully transparent and gives `top` when
/// it is fully opaque.
#[verifier::external_body]
fn blend_rgba(bottom: [u8; 4], top: [u8; 4]) -> (r: [u8; 4])
    ensures
        r == blended_rgba(bottom, top),
        top[3] == 0 ==> r == bottom,
        top[3] == 255 ==> r == top,
{
    let mut b = image::Rgba(bottom);
    image::Pixel::blend(&mut b, &image::Rgba(top));
    b.0
}

/// Lays `top` over `bottom` with its corner at `(ox, oy)`, compositing each pixel as
/// `image::imageops::overlay` does.
pub fn overlay_rgba(bottom: &mut Image<[u8; 4]>, top: &Image<[u8; 4]>, ox: u32, oy: u32)
    requires
        old(bottom).wf(),
        top.wf(),
        ox + top.width <= old(bottom).width,
        oy + top.height <= old(bottom).height,
    ensures
        final(bottom).wf(),
        final(bottom).width == old(bottom).width,
        final(bottom).height == old(bottom).height,
        forall|x: int, y: int|
            0 <= x < top.width && 0 <= y < top.height ==> #[trigger] final(bottom).pixel(ox + x, oy + y)
                == blended_rgba(old(bottom).pixel(ox + x, oy + y), top.pixel(x, y)),
        forall|i: int, j: int|
            0 <= i < final(bottom).width && 0 <= j < final(bottom).height && !(ox <= i < ox + top.width
                && oy <= j < oy + top.height) ==> #[trigger] final(bottom).pixel(i, j) == old(bottom).pixel(
                i,
                j,
            ),
{
    let ghost before = *bottom;
    let mut y: u32 = 0;
    while y < top.height
        invariant
            top.wf(),
            bottom.wf(),
            bottom.width == before.width,
            bottom.height == before.height,
            ox + top.width <= before.width,
            oy + top.height <= before.height,
            y <= top.height,
            forall|px: int, py: int|
                0 <= px < top.width && 0 <= py < y ==> #[trigger] bottom.pixel(ox + px, oy + py)
                    == blended_rgba(before.pixel(ox + px, oy + py), top.pixel(px, py)),
            forall|i: int, j: int|
                0 <= i < bottom.width && 0 <= j < bottom.height && !(ox <= i < ox + top.width && oy <= j
                    < oy + y) ==> #[trigger] bottom.pixel(i, j) == before.pixel(i, j),
        decreases top.height - y,
    {
        let mut x: u32 = 0;
        while x < top.width
            invariant
                top.wf(),
                bottom.wf(),
                bottom.width == before.width,
                bottom.height == before.height,
                ox + top.width <= before.width,
                oy + top.height <= before.height,
                y < top.height,
                x <= top.width,
                forall|px: int, py: int|
                    0 <= px < top.width && 0 <= py < y ==> #[trigger] bottom.pixel(ox + px, oy + py)
                        == blended_rgba(before.pixel(ox + px, oy + py), top.pixel(px, py)),
                forall|px: int|
                    0 <= px < x ==> #[trigger] bottom.pixel(ox + px, oy + y) == blended_rgba(
                        before.pixel(ox + px, oy + y),
                        top.pixel(px, y as int),
                    ),
                forall|i: int, j: int|
                    0 <= i < bottom.width && 0 <= j < bottom.height && !(ox <= i < ox + top.width && oy
                        <= j < oy + y) && !(j == oy + y && ox <= i < ox + x) ==> #[trigger] bottom.pixel(i, j)
                        == before.pixel(i, j),
            decreases top.width - x,
        {
            let under = bottom.get_pixel(ox + x, oy + y);
            let over = top.get_pixel(x, y);
            let p = blend_rgba(under, over);
            bottom.put_pixel(ox + x, oy + y, p);
            x += 1;
        }
        y += 1;
    }
}

/// Where child `k` of a parent of `resolution` pixels goes: row by row, the upper pair
/// first, each a quadrant of half the resolution.
pub open spec fn quadrant_origin(resolution: u32, k: int) -> (int, int) {
    let half = (resolution / 2) as int;
    (if k % 2 == 1 { half } else { 0 }, if k >= 2 { half } else { 0 })
}

/// The quadrant of each child is where [`crate::ingest::child_tiles`] places it.
pub proof fn lemma_quadrants_are_child_offsets(x: u32, y: u32, resolution: u32, k: int)
    requires
        0 <= k < 4,
        resolution as int * 2 <= u32::MAX,
    ensures
        spec_child_tile(x, y, resolution, k).offset_x == quadrant_origin(resolution, k).0,
        spec_child_tile(x, y, resolution, k).offset_y == quadrant_origin(resolution, k).1,
{
    let half = resolution / 2;
    if k == 0 {
        assert(k % 2 == 0 && k / 2 == 0);
    } else if k == 1 {
        assert(k % 2 == 1 && k / 2 == 0);
    } else if k == 2 {
        assert(k % 2 == 0 && k / 2 == 1);
    } else {
        assert(k % 2 == 1 && k / 2 == 1);
    }
    assert((0 * half) as u32 == 0 && (1 * half) as u32 == half);
}

/// Whether a child's encoded image can be used: absent, or decoding to an image whose
/// resizing to `half × half` fits in memory.
pub open spec fn child_usable(child: Option<Vec<u8>>, half: u32) -> bool {
    match child {
        None => true,
        Some(bytes) => match decoded_rgba(bytes@) {
            None => false,
            Some((w, h, _)) => resize_fits(w, h, half, half),
        },
    }
}

/// Whether child `k` is the first of `children` that cannot be used.
pub open spec fn first_unusable_child(children: Seq<Option<Vec<u8>>>, half: u32, k: int) -> bool {
    &&& 0 <= k < children.len()
    &&& !child_usable(children[k], half)
    &&& forall|j: int| 0 <= j < k ==> #[trigger] child_usable(children[j], half)
}

/// Pixel `(px, py)` of quadrant `k` of the stitched parent, for a reproducible
/// filter: transparent for an absent child, else the child's resized pixel composited
/// over transparent.
pub open spec fn stitched_pixel(child: Option<Vec<u8>>, half: u32, filter: ResizeFilter, px: int, py: int) -> [u8; 4] {
    match child {
        None => [0u8, 0u8, 0u8, 0u8],
        Some(bytes) => {
            let (w, h, pixels) = decoded_rgba(bytes@).unwrap();
            blended_rgba([0u8, 0u8, 0u8, 0u8], resized_rgba(w, h, pixels, half, half, filter)[py * half + px])
        },
    }
}

/// Pixel `(px, py)` of the quadrant of a parent that holds the resized child `child`:
/// transparent for an absent child, else the child's pixel composited over
/// transparent.
pub open spec fn quadrant_pixel(child: Option<Image<[u8; 4]>>, px: int, py: int) -> [u8; 4] {
    match child {
        None => [0u8, 0u8, 0u8, 0u8],
        Some(img) => blended_rgba([0u8, 0u8, 0u8, 0u8], img.pixel(px, py)),
    }
}

/// Whether each present child is a well-formed `half × half` image.
pub open spec fn resized_children_fit(resized: Seq<Option<Image<[u8; 4]>>>, half: u32) -> bool {
    forall|k: int|
        0 <= k < resized.len() ==> (#[trigger] resized[k] matches Some(img) ==> img.wf() && img.width == half
            && img.height == half)
}

/// Lays the four children, already resized to half the resolution, over the
/// quadrants of a transparent parent of `resolution × resolution` pixels, in the
/// order of [`crate::ingest::child_tiles`].
pub fn stitch_resized_children(resized: &[Option<Image<[u8; 4]>>], resolution: u32) -> (out: Image<[u8; 4]>)
    requires
        resized@.len() == 4,
        resolution % 2 == 0,
        resolution as int * resolution as int * 4 <= isize::MAX,
        resized_children_fit(resized@, resolution / 2),
    ensures
        out.wf(),
        out.width == resolution,
        out.height == resolution,
        forall|k: int, px: int, py: int|
            0 <= k < 4 && 0 <= px < resolution / 2 && 0 <= py < resolution / 2 ==> #[trigger] out.pixel(
                quadrant_origin(resolution, k).0 + px,
                quadrant_origin(resolution, k).1 + py,
            ) == quadrant_pixel(resized@[k], px, py),
{
    let half = resolution / 2;
    let mut out = Image::new(resolution, resolution, [0u8, 0u8, 0u8, 0u8]);
    proof {
        assert forall|j: int, px: int, py: int|
            0 <= j < 4 && 0 <= px < half && 0 <= py < half implies #[trigger] out.pixel(
                quadrant_origin(resolution, j).0 + px,
                quadrant_origin(resolution, j).1 + py,
            ) == [0u8, 0u8, 0u8, 0u8] by {
            lemma_quadrant_point_outside(resolution, j, j, px, py);
            lemma_pixel_offset(
                resolution as int,
                resolution as int,
                quadrant_origin(resolution, j).0 + px,
                quadrant_origin(resolution, j).1 + py,
            );
        }
    }
    let mut k: usize = 0;
    while k < 4
        invariant
            resized@.len() == 4,
            half == resolution / 2,
            resolution % 2 == 0,
            resized_children_fit(resized@, half),
            k <= 4,
            out.wf(),
            out.width == resolution,
            out.height == resolution,
            forall|j: int, px: int, py: int|
                0 <= j < k && 0 <= px < half && 0 <= py < half ==> #[trigger] out.pixel(
                    quadrant_origin(resolution, j).0 + px,
                    quadrant_origin(resolution, j).1 + py,
                ) == quadrant_pixel(resized@[j], px, py),
            forall|j: int, px: int, py: int|
                k <= j < 4 && 0 <= px < half && 0 <= py < half ==> #[trigger] out.pixel(
                    quadrant_origin(resolution, j).0 + px,
                    quadrant_origin(resolution, j).1 + py,
                ) == [0u8, 0u8, 0u8, 0u8],
        decreases 4 - k,
    {
        let ox: u32 = if k % 2 == 1 { half } else { 0 };
        let oy: u32 = if k >= 2 { half } else { 0 };
        assert(ox == quadrant_origin(resolution, k as int).0 && oy == quadrant_origin(resolution, k as int).1);
        match &resized[k] {
            None => {},
            Some(small) => {
                assert(resized@[k as int] matches Some(img) ==> img.wf() && img.width == half && img.height == half);
                let ghost before = out;
                overlay_rgba(&mut out, small, ox, oy);
                proof {
                    lemma_quadrant_inside(resolution, k as int);
                    assert forall|j: int, px: int, py: int|
                        0 <= j < k + 1 && 0 <= px < half && 0 <= py < half implies #[trigger] out.pixel(
                            quadrant_origin(resolution, j).0 + px,
                            quadrant_origin(resolution, j).1 + py,
                        ) == quadrant_pixel(resized@[j], px, py) by {
                        if j == k {
                            assert(before.pixel(ox + px, oy + py) == [0u8, 0u8, 0u8, 0u8]);
                        } else {
                            lemma_quadrant_point_outside(resolution, j, k as int, px, py);
                        }
                    }
                    assert forall|j: int, px: int, py: int|
                        k + 1 <= j < 4 && 0 <= px < half && 0 <= py < half implies #[trigger] out.pixel(
                            quadrant_origin(resolution, j).0 + px,
                            quadrant_origin(resolution, j).1 + py,
                        ) == [0u8, 0u8, 0u8, 0u8] by {
                        lemma_quadrant_point_outside(resolution, j, k as int, px, py);
                    }
                }
            },
        }
        k += 1;
    }
    out
}

/// Whether quadrant `k` of `out`, a parent of `resolution` pixels, holds the
/// half-resolution image whose row-by-row pixels are `pixels`, composited over
/// transparent.
pub open spec fn quadrant_holds(out: Image<[u8; 4]>, resolution: u32, k: int, pixels: Seq<[u8; 4]>) -> bool {
    &&& pixels.len() == (resolution / 2) as int * (resolution / 2) as int
    &&& forall|px: int, py: int|
        0 <= px < resolution / 2 && 0 <= py < resolution / 2 ==> #[trigger] out.pixel(
            quadrant_origin(resolution, k).0 + px,
            quadrant_origin(resolution, k).1 + py,
        ) == blended_rgba([0u8, 0u8, 0u8, 0u8], pixels[py * (resolution / 2) + px])
}

/// Why a parent tile could not be stitched.
#[derive(Debug, Clone, Copy, PartialEq, Eq, Structural)]
pub enum StitchError {
    /// Child `k`'s bytes do not decode as an image.
    Decode(usize),
    /// Child `k` decodes to an image too large to resize in memory.
    TooLarge(usize),
}

/// Stitches a parent tile of `resolution × resolution` pixels from the encoded images
/// of its four children, in the order of [`crate::ingest::child_tiles`]; `None` for an
/// absent child. Gives `Ok(None)` when no child is present; stops at the first child
/// that cannot be used. The quadrant of an absent child is transparent; with a
/// reproducible filter every pixel is fixed, and with the others what a present child
/// puts in its quadrant is what [`stitch_resized_children`] makes of the resized
/// image.
pub fn stitch_parent_tile(children: &[Option<Vec<u8>>], resolution: u32, filter: ResizeFilter) -> (r: Result<
    Option<Image<[u8; 4]>>,
    StitchError,
>)
    requires
        children@.len() == 4,
        resolution % 2 == 0,
        resolution as int * resolution as int * 4 <= isize::MAX,
    ensures
        r is Err <==> exists|k: int| #[trigger] first_unusable_child(children@, resolution / 2, k),
        r matches Err(StitchError::Decode(k)) ==> first_unusable_child(children@, resolution / 2, k as int)
            && decoded_rgba(children@[k as int].unwrap()@) is None,
        r matches Err(StitchError::TooLarge(k)) ==> first_unusable_child(children@, resolution / 2, k as int)
            && decoded_rgba(children@[k as int].unwrap()@) is Some,
        r matches Ok(None) <==> (r is Ok && forall|k: int| 0 <= k < 4 ==> #[trigger] children@[k] is None),
        r matches Ok(Some(out)) ==> {
            &&& out.wf()
            &&& out.width == resolution
            &&& out.height == resolution
            &&& forall|k: int, px: int, py: int|
                0 <= k < 4 && 0 <= px < resolution / 2 && 0 <= py < resolution / 2 && children@[k] is None
                    ==> #[trigger] out.pixel(
                    quadrant_origin(resolution, k).0 + px,
                    quadrant_origin(resolution, k).1 + py,
                ) == [0u8, 0u8, 0u8, 0u8]
            &&& resize_is_reproducible(filter) ==> forall|k: int, px: int, py: int|
                0 <= k < 4 && 0 <= px < resolution / 2 && 0 <= py < resolution / 2 ==> #[trigger] out.pixel(
                    quadrant_origin(resolution, k).0 + px,
                    quadrant_origin(resolution, k).1 + py,
                ) == stitched_pixel(children@[k], resolution / 2, filter, px, py)
            &&& forall|k: int|
                0 <= k < 4 && #[trigger] children@[k] is Some ==> exists|pixels: Seq<[u8; 4]>|
                    #[trigger] quadrant_holds(out, resolution, k, pixels)
            &&& forall|k: int|
                0 <= k < 4 && #[trigger] children@[k] is Some && decoded_rgba(children@[k].unwrap()@).unwrap().0
                    == resolution / 2 && decoded_rgba(children@[k].unwrap()@).unwrap().1 == resolution / 2
                    ==> quadrant_holds(out, resolution, k, decoded_rgba(children@[k].unwrap()@).unwrap().2)
        },
{
    let half = resolution / 2;
    let mut resized: Vec<Option<Image<[u8; 4]>>> = Vec::new();
    let mut has_child = false;
    let mut k: usize = 0;
    while k < 4
        invariant
            children@.len() == 4,
            half == resolution / 2,
            k <= 4,
            resized@.len() == k,
            resized_children_fit(resized@, half),
            forall|j: int| 0 <= j < k ==> #[trigger] child_usable(children@[j], half),
            forall|j: int| 0 <= j < k ==> (#[trigger] resized@[j] is None <==> children@[j] is None),
            resize_is_reproducible(filter) ==> forall|j: int, px: int, py: int|
                0 <= j < k && 0 <= px < half && 0 <= py < half ==> #[trigger] quadrant_pixel(resized@[j], px, py)
                    == stitched_pixel(children@[j], half, filter, px, py),
            forall|j: int|
                0 <= j < k && #[trigger] children@[j] is Some && decoded_rgba(children@[j].unwrap()@).unwrap().0
                    == half && decoded_rgba(children@[j].unwrap()@).unwrap().1 == half ==> resized@[j].unwrap().pixels@
                    == decoded_rgba(children@[j].unwrap()@).unwrap().2,
            has_child <==> exists|j: int| 0 <= j < k && #[trigger] children@[j] is Some,
        decreases 4 - k,
    {
        match &children[k] {
            None => {
                resized.push(None);
            },
            Some(bytes) => {
                has_child = true;
                let img = match decode_rgba(bytes.as_slice()) {
                    Some(img) => img,
                    None => {
                        assert(first_unusable_child(children@, half, k as int));
                        return Err(StitchError::Decode(k));
                    },
                };
                let fits = resize_fits_exec(img.width, img.height, half, half);
                if !fits {
                    assert(first_unusable_child(children@, half, k as int));
                    return Err(StitchError::TooLarge(k));
                }
                let small = resize_rgba(&img, half, half, filter);
                resized.push(Some(small));
            },
        }
        proof {
            assert(resized@[k as int] is None <==> children@[k as int] is None);
            assert(resized_children_fit(resized@, half)) by {
                assert forall|j: int| 0 <= j < resized@.len() implies (#[trigger] resized@[j] matches Some(img)
                    ==> img.wf() && img.width == half && img.height == half) by {
                    if j < k {
                        assert(resized@[j] == resized@.drop_last()[j]);
                    }
                }
            }
        }
        k += 1;
    }
    if !has_child {
        return Ok(None);
    }
    let out = stitch_resized_children(resized.as_slice(), resolution);
    proof {
        assert forall|k: int| 0 <= k < 4 && #[trigger] children@[k] is Some implies exists|pixels: Seq<[u8; 4]>|
            #[trigger] quadrant_holds(out, resolution, k, pixels) by {
            let img = resized@[k].unwrap();
            assert forall|px: int, py: int| 0 <= px < half && 0 <= py < half implies #[trigger] out.pixel(
                quadrant_origin(resolution, k).0 + px,
                quadrant_origin(resolution, k).1 + py,
            ) == blended_rgba([0u8, 0u8, 0u8, 0u8], img.pixels@[py * half + px]) by {
                assert(quadrant_pixel(resized@[k], px, py) == blended_rgba([0u8, 0u8, 0u8, 0u8], img.pixel(px, py)));
            }
            assert(quadrant_holds(out, resolution, k, img.pixels@));
        }
        assert forall|k: int|
            0 <= k < 4 && #[trigger] children@[k] is Some && decoded_rgba(children@[k].unwrap()@).unwrap().0 == half
                && decoded_rgba(children@[k].unwrap()@).unwrap().1 == half implies quadrant_holds(
            out,
            resolution,
            k,
            decoded_rgba(children@[k].unwrap()@).unwrap().2,
        ) by {
            let img = resized@[k].unwrap();
            assert forall|px: int, py: int| 0 <= px < half && 0 <= py < half implies #[trigger] out.pixel(
                quadrant_origin(resolution, k).0 + px,
                quadrant_origin(resolution, k).1 + py,
            ) == blended_rgba([0u8, 0u8, 0u8, 0u8], img.pixels@[py * half + px]) by {
                assert(quadrant_pixel(resized@[k], px, py) == blended_rgba([0u8, 0u8, 0u8, 0u8], img.pixel(px, py)));
            }
        }
    }
    Ok(Some(out))
}

/// Executable [`resize_fits`].
fn resize_fits_exec(width: u32, height: u32, new_width: u32, new_height: u32) -> (r: bool)
    ensures
        r == resize_fits(width, height, new_width, new_height),
{
    proof {
        assert(new_width as int * new_height as int <= 0xffff_ffff * 0xffff_ffff) by (nonlinear_arith)
            requires
                new_width <= 0xffff_ffff,
                new_height <= 0xffff_ffff,
        ;
        assert(width as int * new_height as int <= 0xffff_ffff * 0xffff_ffff) by (nonlinear_arith)
            requires
                width <= 0xffff_ffff,
                new_height <= 0xffff_ffff,
        ;
    }
    let out_len = new_width as u128 * new_height as u128 * 4;
    let ok_out = out_len <= isize::MAX as u128;
    if width > 0 && height > 0 && (width != new_width || height != new_height) {
        ok_out && width as u128 * new_height as u128 * 16 <= isize::MAX as u128
    } else {
        ok_out
    }
}

/// A point of quadrant `j` lies outside quadrant `k` for `j != k`, and inside the
/// parent.
proof fn lemma_quadrant_point_outside(resolution: u32, j: int, k: int, px: int, py: int)
    requires
        resolution % 2 == 0,
        0 <= j < 4,
        0 <= k < 4,
        0 <= px < resolution / 2,
        0 <= py < resolution / 2,
    ensures
        0 <= quadrant_origin(resolution, j).0 + px < resolution,
        0 <= quadrant_origin(resolution, j).1 + py < resolution,
        j != k ==> !(quadrant_origin(resolution, k).0 <= quadrant_origin(resolution, j).0 + px
            < quadrant_origin(resolution, k).0 + resolution / 2 && quadrant_origin(resolution, k).1
            <= quadrant_origin(resolution, j).1 + py < quadrant_origin(resolution, k).1 + resolution / 2),
{
    assert(j == 0 || j == 1 || j == 2 || j == 3);
    assert(k == 0 || k == 1 || k == 2 || k == 3);
}

/// Quadrant `k` lies inside the parent.
proof fn lemma_quadrant_inside(resolution: u32, k: int)
    requires
        resolution % 2 == 0,
        0 <= k < 4,
    ensures
        quadrant_origin(resolution, k).0 + resolution / 2 <= resolution,
        quadrant_origin(resolution, k).1 + resolution / 2 <= resolution,
{
    assert(k == 0 || k == 1 || k == 2 || k == 3);
}

} // verus!
