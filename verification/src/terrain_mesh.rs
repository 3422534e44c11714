//! Index topology of a square terrain grid mesh with skirts.
//!
//! A mesh of resolution `r` has `(r + 1)²` grid vertices, numbered row by row
//! (`y * (r + 1) + x`), followed by the skirt vertices: for each side of the grid
//! (bottom, right, top, left) and each of its `r + 1` boundary vertices, a pair made
//! of a copy of that boundary vertex and a copy lowered by the skirt depth. The
//! triangle list holds two triangles per grid cell, then two per skirt segment.
use vstd::arithmetic::div_mod::lemma_fundamental_div_mod_converse;
use vstd::prelude::*;

verus! {

/// The grid resolution a mesh is built with: at least one cell per side.
pub open spec fn spec_effective_resolution(grid_resolution: u32) -> int {
    if grid_resolution == 0 {
        1
    } else {
        grid_resolution as int
    }
}

/// Resolutions whose index arithmetic stays within `u32`.
pub open spec fn terrain_resolution_fits(r: int) -> bool {
    1 <= r && 6 * r * r + 24 * r <= u32::MAX
}

/// Index of grid vertex `(x, y)`.
pub open spec fn spec_top_index(r: int, x: int, y: int) -> int {
    y * (r + 1) + x
}

/// Number of grid vertices.
pub open spec fn spec_grid_vertex_count(r: int) -> int {
    (r + 1) * (r + 1)
}

/// Number of vertices of the whole mesh: grid and skirts.
pub open spec fn spec_vertex_count(r: int) -> int {
    spec_grid_vertex_count(r) + 8 * (r + 1)
}

/// Number of entries of the triangle list.
pub open spec fn spec_index_count(r: int) -> int {
    6 * r * r + 24 * r
}

/// Position of the skirt pair of boundary vertex `i` of side `side` (0 bottom,
/// 1 right, 2 top, 3 left) in the list of pairs.
pub open spec fn spec_skirt_pair(r: int, side: int, i: int) -> int {
    side * (r + 1) + i
}

/// Index of the upper vertex of a skirt pair.
pub open spec fn spec_skirt_top(r: int, side: int, i: int) -> int {
    spec_grid_vertex_count(r) + 2 * spec_skirt_pair(r, side, i)
}

/// Index of the lowered vertex of a skirt pair.
pub open spec fn spec_skirt_bottom(r: int, side: int, i: int) -> int {
    spec_skirt_top(r, side, i) + 1
}

/// The grid vertex that boundary vertex `i` of side `side` copies.
pub open spec fn spec_skirt_source(r: int, side: int, i: int) -> int {
    if side == 0 {
        spec_top_index(r, i, 0)
    } else if side == 1 {
        spec_top_index(r, r, i)
    } else if side == 2 {
        spec_top_index(r, i, r)
    } else {
        spec_top_index(r, 0, i)
    }
}

/// The six indices of the two triangles of a skirt segment between the upper
/// vertices `top_a`, `top_b` and their lowered copies `skirt_a`, `skirt_b`.
pub open spec fn spec_skirt_quad(top_a: int, top_b: int, skirt_a: int, skirt_b: int) -> Seq<int> {
    seq![top_a, skirt_a, skirt_b, top_a, skirt_b, top_b]
}

/// The six indices of the two triangles of grid cell `(x, y)`.
pub open spec fn spec_cell_triangles(r: int, x: int, y: int) -> Seq<int> {
    let a = spec_top_index(r, x, y);
    let b = spec_top_index(r, x + 1, y);
    let c = spec_top_index(r, x + 1, y + 1);
    let d = spec_top_index(r, x, y + 1);
    seq![a, b, c, a, c, d]
}

/// The six indices of skirt segment `i` of side `side`. Bottom and right run from
/// boundary vertex `i` to `i + 1`, top and left the other way, so that every skirt
/// faces outwards.
pub open spec fn spec_side_quad(r: int, side: int, i: int) -> Seq<int> {
    if side < 2 {
        spec_skirt_quad(
            spec_skirt_top(r, side, i),
            spec_skirt_top(r, side, i + 1),
            spec_skirt_bottom(r, side, i),
            spec_skirt_bottom(r, side, i + 1),
        )
    } else {
        spec_skirt_quad(
            spec_skirt_top(r, side, i + 1),
            spec_skirt_top(r, side, i),
            spec_skirt_bottom(r, side, i + 1),
            spec_skirt_bottom(r, side, i),
        )
    }
}

/// Entry `k` of the triangle list: cell `k / 6` (row-major) while `k < 6r²`, then
/// skirt segments, four per step along the boundary in side order.
pub open spec fn spec_terrain_index(r: int, k: int) -> int {
    if k < 6 * r * r {
        let c = k / 6;
        spec_cell_triangles(r, c % r, c / r)[k % 6]
    } else {
        let q = (k - 6 * r * r) / 6;
        spec_side_quad(r, q % 4, q / 4)[(k - 6 * r * r) % 6]
    }
}

/// The resolution a mesh is built with.
pub fn effective_resolution(grid_resolution: u32) -> (r: u32)
    ensures
        r == spec_effective_resolution(grid_resolution),
{
    if grid_resolution == 0 {
        1
    } else {
        grid_resolution
    }
}

proof fn lemma_sizes(r: int)
    requires
        terrain_resolution_fits(r),
    ensures
        spec_vertex_count(r) <= spec_index_count(r) <= u32::MAX,
        spec_grid_vertex_count(r) == r * r + 2 * r + 1,
        r * r <= u32::MAX,
        r < 0x10000,
        6 * r * r == 6 * (r * r),
{
    assert(spec_grid_vertex_count(r) == r * r + 2 * r + 1) by (nonlinear_arith);
    assert(r * r >= r && 6 * r * r == 6 * (r * r)) by (nonlinear_arith)
        requires
            r >= 1,
    ;
    assert(r < 0x10000) by (nonlinear_arith)
        requires
            r >= 1,
            6 * r * r + 24 * r <= u32::MAX,
    ;
}

/// Index of grid vertex `(x, y)` of a mesh of resolution `r`.
pub fn terrain_top_index(r: u32, x: u32, y: u32) -> (idx: u32)
    requires
        terrain_resolution_fits(r as int),
        x <= r,
        y <= r,
    ensures
        idx == spec_top_index(r as int, x as int, y as int),
        idx < spec_grid_vertex_count(r as int),
{
    proof {
        lemma_sizes(r as int);
        assert(y * (r + 1) + x <= r * (r + 1) + r) by (nonlinear_arith)
            requires
                x <= r,
                y <= r,
        ;
        assert(r * (r + 1) + r < (r + 1) * (r + 1)) by (nonlinear_arith);
    }
    y * (r + 1) + x
}

/// Number of vertices of a mesh of resolution `r`, grid and skirts.
pub fn terrain_vertex_count(r: u32) -> (n: u32)
    requires
        terrain_resolution_fits(r as int),
    ensures
        n == spec_vertex_count(r as int),
{
    proof {
        lemma_sizes(r as int);
    }
    (r + 1) * (r + 1) + 8 * (r + 1)
}

/// Appends the two triangles of a skirt segment.
pub fn add_skirt_quad(indices: &mut Vec<u32>, top_a: u32, top_b: u32, skirt_a: u32, skirt_b: u32)
    ensures
        final(indices)@ == old(indices)@ + seq![top_a, skirt_a, skirt_b, top_a, skirt_b, top_b],
{
    indices.push(top_a);
    indices.push(skirt_a);
    indices.push(skirt_b);
    indices.push(top_a);
    indices.push(skirt_b);
    indices.push(top_b);
}

/// Where entries of the triangle list at a given offset come from, for the grid part.
proof fn lemma_cell_entries(r: int, x: int, y: int, j: int)
    requires
        r >= 1,
        0 <= x < r,
        0 <= y < r,
        0 <= j < 6,
    ensures
        6 * (y * r + x) + j < 6 * r * r,
        spec_terrain_index(r, 6 * (y * r + x) + j) == spec_cell_triangles(r, x, y)[j],
{
    let c = y * r + x;
    let k = 6 * c + j;
    assert(c < r * r && 6 * r * r == 6 * (r * r)) by (nonlinear_arith)
        requires
            0 <= x < r,
            0 <= y < r,
            c == y * r + x,
    ;
    lemma_fundamental_div_mod_converse(k, 6, c, j);
    lemma_fundamental_div_mod_converse(c, r, y, x);
}

/// Where entries of the triangle list at a given offset come from, for the skirt part.
proof fn lemma_skirt_entries(r: int, side: int, i: int, j: int)
    requires
        r >= 1,
        0 <= side < 4,
        0 <= i < r,
        0 <= j < 6,
    ensures
        6 * r * r + 6 * (4 * i + side) + j < spec_index_count(r),
        spec_terrain_index(r, 6 * r * r + 6 * (4 * i + side) + j) == spec_side_quad(
            r,
            side,
            i,
        )[j],
{
    let q = 4 * i + side;
    let k = 6 * r * r + 6 * q + j;
    assert(6 * r * r >= 0) by (nonlinear_arith);
    lemma_fundamental_div_mod_converse(k - 6 * r * r, 6, q, j);
    lemma_fundamental_div_mod_converse(q, 4, i, side);
}

/// Appends the two triangles of grid cell `(x, y)`.
fn push_cell(indices: &mut Vec<u32>, r: u32, x: u32, y: u32)
    requires
        terrain_resolution_fits(r as int),
        x < r,
        y < r,
    ensures
        final(indices)@.len() == old(indices)@.len() + 6,
        forall|k: int|
            0 <= k < old(indices)@.len() ==> #[trigger] final(indices)@[k] == old(indices)@[k],
        forall|j: int|
            0 <= j < 6 ==> final(indices)@[old(indices)@.len() + j] as int == spec_cell_triangles(
                r as int,
                x as int,
                y as int,
            )[j],
{
    let a = terrain_top_index(r, x, y);
    let b = terrain_top_index(r, x + 1, y);
    let c = terrain_top_index(r, x + 1, y + 1);
    let d = terrain_top_index(r, x, y + 1);
    indices.push(a);
    indices.push(b);
    indices.push(c);
    indices.push(a);
    indices.push(c);
    indices.push(d);
}

/// Index of the upper vertex of skirt pair `(side, i)`.
fn skirt_top_index(r: u32, side: u32, i: u32) -> (idx: u32)
    requires
        terrain_resolution_fits(r as int),
        side < 4,
        i <= r,
    ensures
        idx == spec_skirt_top(r as int, side as int, i as int),
        idx + 1 < spec_vertex_count(r as int),
{
    proof {
        lemma_sizes(r as int);
        assert(side * (r + 1) + i <= 3 * (r + 1) + r) by (nonlinear_arith)
            requires
                side < 4,
                i <= r,
        ;
    }
    (r + 1) * (r + 1) + 2 * (side * (r + 1) + i)
}

/// Appends skirt segment `i` of side `side`.
fn push_side_quad(indices: &mut Vec<u32>, r: u32, side: u32, i: u32)
    requires
        terrain_resolution_fits(r as int),
        side < 4,
        i < r,
    ensures
        final(indices)@.len() == old(indices)@.len() + 6,
        forall|k: int|
            0 <= k < old(indices)@.len() ==> #[trigger] final(indices)@[k] == old(indices)@[k],
        forall|j: int|
            0 <= j < 6 ==> final(indices)@[old(indices)@.len() + j] as int == spec_side_quad(
                r as int,
                side as int,
                i as int,
            )[j],
{
    proof {
        lemma_sizes(r as int);
    }
    let ta = skirt_top_index(r, side, i);
    let tb = skirt_top_index(r, side, i + 1);
    if side < 2 {
        add_skirt_quad(indices, ta, tb, ta + 1, tb + 1);
    } else {
        add_skirt_quad(indices, tb, ta, tb + 1, ta + 1);
    }
}

/// The triangle list of a terrain mesh of resolution `r`: the grid cells row by
/// row, then the skirt segments.
pub fn terrain_mesh_indices(r: u32) -> (indices: Vec<u32>)
    requires
        terrain_resolution_fits(r as int),
    ensures
        indices@.len() == spec_index_count(r as int),
        forall|k: int|
            0 <= k < indices@.len() ==> #[trigger] indices@[k] as int == spec_terrain_index(
                r as int,
                k,
            ),
{
    proof {
        lemma_sizes(r as int);
    }
    let mut indices: Vec<u32> = Vec::new();
    let mut y: u32 = 0;
    while y < r
        invariant
            terrain_resolution_fits(r as int),
            y <= r,
            indices@.len() == 6 * (y * r),
            forall|k: int|
                0 <= k < indices@.len() ==> #[trigger] indices@[k] as int == spec_terrain_index(
                    r as int,
                    k,
                ),
        decreases r - y,
    {
        let mut x: u32 = 0;
        while x < r
            invariant
                terrain_resolution_fits(r as int),
                y < r,
                x <= r,
                indices@.len() == 6 * (y * r + x),
                forall|k: int|
                    0 <= k < indices@.len() ==> #[trigger] indices@[k] as int == spec_terrain_index(
                        r as int,
                        k,
                    ),
            decreases r - x,
        {
            let ghost before = indices@;
            push_cell(&mut indices, r, x, y);
            proof {
                assert forall|k: int| 0 <= k < indices@.len() implies #[trigger] indices@[k] as int
                    == spec_terrain_index(r as int, k) by {
                    if k >= before.len() {
                        lemma_cell_entries(r as int, x as int, y as int, k - before.len());
                    }
                }
            }
            x += 1;
        }
        proof {
            assert(6 * (y * r + r) == 6 * ((y + 1) * r)) by (nonlinear_arith);
        }
        y += 1;
    }
    let mut i: u32 = 0;
    while i < r
        invariant
            terrain_resolution_fits(r as int),
            i <= r,
            y == r,
            indices@.len() == 6 * (y * r) + 24 * i,
            forall|k: int|
                0 <= k < indices@.len() ==> #[trigger] indices@[k] as int == spec_terrain_index(
                    r as int,
                    k,
                ),
        decreases r - i,
    {
        let mut side: u32 = 0;
        while side < 4
            invariant
                terrain_resolution_fits(r as int),
                i < r,
                y == r,
                side <= 4,
                indices@.len() == 6 * (y * r) + 24 * i + 6 * side,
                forall|k: int|
                    0 <= k < indices@.len() ==> #[trigger] indices@[k] as int == spec_terrain_index(
                        r as int,
                        k,
                    ),
            decreases 4 - side,
        {
            let ghost before = indices@;
            push_side_quad(&mut indices, r, side, i);
            proof {
                assert forall|k: int| 0 <= k < indices@.len() implies #[trigger] indices@[k] as int
                    == spec_terrain_index(r as int, k) by {
                    if k >= before.len() {
                        assert(6 * (y * r) == 6 * r * r) by (nonlinear_arith)
                            requires
                                y == r,
                        ;
                        lemma_skirt_entries(r as int, side as int, i as int, k - before.len());
                    }
                }
            }
            side += 1;
        }
        i += 1;
    }
    proof {
        assert(6 * (y * r) + 24 * r == spec_index_count(r as int)) by (nonlinear_arith)
            requires
                y == r,
        ;
    }
    indices
}

/// The grid vertex that skirt pair `p` copies: pairs run side by side, `r + 1` per side.
pub open spec fn spec_skirt_source_at(r: int, p: int) -> int {
    spec_skirt_source(r, p / (r + 1), p % (r + 1))
}

/// For each skirt pair, in order, the grid vertex it copies.
pub fn terrain_skirt_sources(r: u32) -> (sources: Vec<u32>)
    requires
        terrain_resolution_fits(r as int),
    ensures
        sources@.len() == 4 * (r + 1),
        forall|p: int|
            0 <= p < sources@.len() ==> #[trigger] sources@[p] as int == spec_skirt_source_at(
                r as int,
                p,
            ),
{
    let mut sources: Vec<u32> = Vec::new();
    let mut side: u32 = 0;
    while side < 4
        invariant
            terrain_resolution_fits(r as int),
            side <= 4,
            sources@.len() == side * (r + 1),
            forall|p: int|
                0 <= p < sources@.len() ==> #[trigger] sources@[p] as int == spec_skirt_source_at(
                    r as int,
                    p,
                ),
        decreases 4 - side,
    {
        let mut i: u32 = 0;
        while i <= r
            invariant
                terrain_resolution_fits(r as int),
                side < 4,
                i <= r + 1,
                sources@.len() == side * (r + 1) + i,
                forall|p: int|
                    0 <= p < sources@.len() ==> #[trigger] sources@[p] as int
                        == spec_skirt_source_at(r as int, p),
            decreases r + 1 - i,
        {
            let src = if side == 0 {
                terrain_top_index(r, i, 0)
            } else if side == 1 {
                terrain_top_index(r, r, i)
            } else if side == 2 {
                terrain_top_index(r, i, r)
            } else {
                terrain_top_index(r, 0, i)
            };
            proof {
                lemma_fundamental_div_mod_converse(
                    side * (r + 1) + i,
                    r + 1,
                    side as int,
                    i as int,
                );
            }
            sources.push(src);
            i += 1;
        }
        proof {
            assert(side * (r + 1) + (r + 1) == (side + 1) * (r + 1)) by (nonlinear_arith);
        }
        side += 1;
    }
    sources
}

/// Every entry of the triangle list names a vertex of the mesh.
pub proof fn lemma_terrain_indices_in_range(r: int, k: int)
    requires
        terrain_resolution_fits(r),
        0 <= k < spec_index_count(r),
    ensures
        0 <= spec_terrain_index(r, k) < spec_vertex_count(r),
{
    lemma_sizes(r);
    if k < 6 * r * r {
        let c = k / 6;
        let x = c % r;
        let y = c / r;
        assert(0 <= c < r * r);
        assert(0 <= y < r) by {
            vstd::arithmetic::div_mod::lemma_div_pos_is_pos(c, r);
            vstd::arithmetic::div_mod::lemma_div_is_ordered(c, r * r - 1, r);
            vstd::arithmetic::div_mod::lemma_div_multiples_vanish_fancy(r - 1, r - 1, r);
            assert((r - 1) * r + r - 1 == r * r - 1) by (nonlinear_arith);
        }
        assert(0 <= x < r);
        assert(spec_top_index(r, x + 1, y + 1) < spec_grid_vertex_count(r)) by (nonlinear_arith)
            requires
                0 <= x < r,
                0 <= y < r,
        ;
        assert(0 <= spec_top_index(r, x, y)) by (nonlinear_arith)
            requires
                0 <= x,
                0 <= y,
                r >= 1,
        ;
        assert((y + 1) * (r + 1) == y * (r + 1) + r + 1) by (nonlinear_arith);
    } else {
        let q = (k - 6 * r * r) / 6;
        let side = q % 4;
        let i = q / 4;
        assert(0 <= q < 4 * r);
        assert(0 <= i < r);
        assert(0 <= side < 4);
        assert(spec_skirt_pair(r, side, i + 1) <= 3 * (r + 1) + r) by (nonlinear_arith)
            requires
                0 <= side < 4,
                0 <= i < r,
        ;
        assert(spec_skirt_pair(r, side, i) >= 0) by (nonlinear_arith)
            requires
                0 <= side < 4,
                0 <= i < r,
        ;
    }
}

/// Every skirt pair copies a grid vertex on the boundary of the grid.
pub proof fn lemma_skirt_sources_on_boundary(r: int, p: int)
    requires
        terrain_resolution_fits(r),
        0 <= p < 4 * (r + 1),
    ensures
        0 <= spec_skirt_source_at(r, p) < spec_grid_vertex_count(r),
        spec_skirt_source_at(r, p) % (r + 1) == 0 || spec_skirt_source_at(r, p) % (r + 1) == r
            || spec_skirt_source_at(r, p) / (r + 1) == 0 || spec_skirt_source_at(r, p) / (r + 1)
            == r,
{
    let side = p / (r + 1);
    let i = p % (r + 1);
    vstd::arithmetic::div_mod::lemma_fundamental_div_mod(p, r + 1);
    assert(0 <= side < 4) by (nonlinear_arith)
        requires
            0 <= p < 4 * (r + 1),
            p == (r + 1) * side + i,
            0 <= i < r + 1,
            r >= 1,
    ;
    let (x, y) = if side == 0 {
        (i, 0)
    } else if side == 1 {
        (r, i)
    } else if side == 2 {
        (i, r)
    } else {
        (0, i)
    };
    assert(spec_skirt_source_at(r, p) == y * (r + 1) + x);
    lemma_fundamental_div_mod_converse(y * (r + 1) + x, r + 1, y, x);
    assert(0 <= y * (r + 1) + x < (r + 1) * (r + 1)) by (nonlinear_arith)
        requires
            0 <= x <= r,
            0 <= y <= r,
    ;
}

/// The normals after the first `n` steps of copying: step `i` gives both vertices of
/// pair `side[i]` the normal that vertex `sources[i]` has at that moment.
pub open spec fn spec_copied_normals<T>(
    normals: Seq<T>,
    side: Seq<(u32, u32)>,
    sources: Seq<u32>,
    n: int,
) -> Seq<T>
    decreases n,
{
    if n <= 0 {
        normals
    } else {
        let prev = spec_copied_normals(normals, side, sources, n - 1);
        let v = prev[sources[n - 1] as int];
        prev.update(side[n - 1].0 as int, v).update(side[n - 1].1 as int, v)
    }
}

/// Number of steps of copying: one per pair that has a source.
pub open spec fn spec_copy_steps(side_len: int, sources_len: int) -> int {
    if side_len < sources_len {
        side_len
    } else {
        sources_len
    }
}

/// Gives the two vertices of each skirt pair in `side` the normal of the grid vertex
/// that the pair copies, taking pairs and sources together while both last.
pub fn set_skirt_extension_normals<T: Copy>(
    normals: &mut Vec<T>,
    side: &[(u32, u32)],
    sources: &[u32],
)
    requires
        forall|i: int|
            0 <= i < spec_copy_steps(side@.len() as int, sources@.len() as int) ==> (
            #[trigger] side@[i]).0 < old(normals)@.len() && side@[i].1 < old(normals)@.len()
                && sources@[i] < old(normals)@.len(),
    ensures
        final(normals)@ == spec_copied_normals(
            old(normals)@,
            side@,
            sources@,
            spec_copy_steps(side@.len() as int, sources@.len() as int),
        ),
{
    let n = if side.len() < sources.len() {
        side.len()
    } else {
        sources.len()
    };
    let ghost start = normals@;
    let mut i: usize = 0;
    while i < n
        invariant
            n == spec_copy_steps(side@.len() as int, sources@.len() as int),
            n <= side@.len(),
            n <= sources@.len(),
            i <= n,
            forall|j: int|
                0 <= j < n ==> (#[trigger] side@[j]).0 < start.len() && side@[j].1 < start.len()
                    && sources@[j] < start.len(),
            normals@ == spec_copied_normals(start, side@, sources@, i as int),
            normals@.len() == start.len(),
        decreases n - i,
    {
        let (top, bottom) = side[i];
        let source = sources[i];
        assert(side@[i as int].0 < start.len());
        let normal = normals[source as usize];
        normals[top as usize] = normal;
        normals[bottom as usize] = normal;
        i += 1;
    }
}

/// When the sources lie below `bound`, the pairs at or above it, and no pair vertex
/// repeats, copying gives each pair vertex exactly the starting normal of its
/// source and leaves the vertices below `bound` as they were.
pub proof fn lemma_copied_normals_from_sources<T>(
    normals: Seq<T>,
    side: Seq<(u32, u32)>,
    sources: Seq<u32>,
    n: int,
    bound: int,
)
    requires
        0 <= n <= side.len(),
        n <= sources.len(),
        bound <= normals.len(),
        forall|i: int|
            0 <= i < n ==> bound <= (#[trigger] side[i]).0 < normals.len() && bound <= side[i].1
                < normals.len() && sources[i] < bound && side[i].0 != side[i].1,
        forall|i: int, j: int|
            0 <= i < j < n ==> (#[trigger] side[i]).0 != (#[trigger] side[j]).0 && side[i].0
                != side[j].1 && side[i].1 != side[j].0 && side[i].1 != side[j].1,
    ensures
        spec_copied_normals(normals, side, sources, n).len() == normals.len(),
        forall|k: int|
            0 <= k < bound ==> #[trigger] spec_copied_normals(normals, side, sources, n)[k]
                == normals[k],
        forall|i: int|
            0 <= i < n ==> spec_copied_normals(normals, side, sources, n)[(#[trigger] side[i]).0 as int]
                == normals[sources[i] as int] && spec_copied_normals(normals, side, sources, n)[side[i].1 as int]
                == normals[sources[i] as int],
    decreases n,
{
    if n > 0 {
        lemma_copied_normals_from_sources(normals, side, sources, n - 1, bound);
        let prev = spec_copied_normals(normals, side, sources, n - 1);
        let last = side[n - 1];
        assert forall|i: int| 0 <= i < n implies spec_copied_normals(normals, side, sources, n)[(
        #[trigger] side[i]).0 as int] == normals[sources[i] as int] && spec_copied_normals(
            normals,
            side,
            sources,
            n,
        )[side[i].1 as int] == normals[sources[i] as int] by {
            if i < n - 1 {
                assert(side[i].0 != last.0 && side[i].0 != last.1);
                assert(side[i].1 != last.0 && side[i].1 != last.1);
            }
        }
    }
}

} // verus!
