//! Addressing of packed elevation (DEM) tiles: a square of `dim × dim` samples with a
//! one-sample border, stored row by row with `stride` samples per row, each sample an
//! RGB-packed value.
use vstd::prelude::*;

verus! {

/// An elevation packed into the three colour channels of a DEM tile pixel.
#[derive(Debug, Clone, Copy, PartialEq, Eq, Structural)]
pub struct PackedDEMData {
    pub r: u8,
    pub g: u8,
    pub b: u8,
}

/// Grids whose positions stay within `i32` and whose addresses stay within `u32`.
pub open spec fn dem_grid_fits(stride: u32, dim: u32) -> bool {
    dim < i32::MAX && (dim as int + 1) * stride + dim + 1 <= u32::MAX
}

/// The position of sample `(x, y)` in the data: `x` and `y` run from `-1` to `dim`
/// (the border included); any other position has none.
pub open spec fn spec_dem_index(stride: u32, dim: u32, x: i32, y: i32) -> Option<usize> {
    if x < -1 || x > dim || y < -1 || y > dim {
        None
    } else {
        Some(((y + 1) * stride + (x + 1)) as usize)
    }
}

/// The position of sample `(x, y)` in the data of a DEM tile.
pub fn dem_index(stride: u32, dim: u32, x: i32, y: i32) -> (r: Option<usize>)
    requires
        dem_grid_fits(stride, dim),
    ensures
        r == spec_dem_index(stride, dim, x, y),
{
    let d = dim as i32;
    if x < -1 || x > d || y < -1 || y > d {
        return None;
    }
    proof {
        assert((y + 1) * stride <= (dim + 1) * stride) by (nonlinear_arith)
            requires
                0 <= y + 1 <= dim + 1,
        ;
    }
    let row = (y + 1) as u32;
    let col = (x + 1) as u32;
    Some((row * stride + col) as usize)
}

/// The three channels of a packed sample: its lowest byte red, the next green, the
/// next blue.
pub open spec fn spec_dem_channels(pixel: u32) -> PackedDEMData {
    PackedDEMData {
        r: (pixel & 0xff) as u8,
        g: ((pixel >> 8u32) & 0xff) as u8,
        b: ((pixel >> 16u32) & 0xff) as u8,
    }
}

/// Splits a packed sample into its channels.
pub fn dem_channels(pixel: u32) -> (c: PackedDEMData)
    ensures
        c == spec_dem_channels(pixel),
{
    assert(pixel & 0xff < 256 && (pixel >> 8u32) & 0xff < 256 && (pixel >> 16u32) & 0xff < 256)
        by (bit_vector);
    PackedDEMData {
        r: (pixel & 0xff) as u8,
        g: ((pixel >> 8) & 0xff) as u8,
        b: ((pixel >> 16) & 0xff) as u8,
    }
}

/// The channels of sample `(x, y)` of a DEM tile, if the position is on the tile and
/// the data reaches it.
pub fn dem_sample(data: &[u32], stride: u32, dim: u32, x: i32, y: i32) -> (r: Option<
    PackedDEMData,
>)
    requires
        dem_grid_fits(stride, dim),
    ensures
        r == match spec_dem_index(stride, dim, x, y) {
            Some(i) => if i < data@.len() {
                Some(spec_dem_channels(data@[i as int]))
            } else {
                None
            },
            None => None,
        },
{
    match dem_index(stride, dim, x, y) {
        Some(i) => if i < data.len() {
            Some(dem_channels(data[i]))
        } else {
            None
        },
        None => None,
    }
}

} // verus!
