//! The terrain mesh: a square grid of `resolution * resolution` vertices,
//! listed row by row, and an index list of six indices (two triangles) for
//! each of the `(resolution - 1) * (resolution - 1)` grid cells.

use vstd::prelude::*;

verus! {

/// Position of grid vertex `(idx, jdx)` in the vertex list.
pub open spec fn vertex_slot(resolution: int, idx: int, jdx: int) -> int {
    resolution * idx + jdx
}

/// The `corner`-th index (0 to 5) that cell `(i, j)` contributes: the
/// triangles `(i + j, i + 1 + j, i + j * resolution)` and
/// `(i + j * resolution, i + 1 + j * resolution, i + 1 + j)`. These name
/// vertices of the grid, but in general not the four corners of the cell in
/// `vertex_slot` order, and some of the triangles repeat a vertex: cell
/// `(0, 0)` gives `(0, 1, 0)`.
pub open spec fn cell_corner(resolution: int, i: int, j: int, corner: int) -> int {
    if corner == 0 {
        i + j
    } else if corner == 1 {
        (i + 1) + j
    } else if corner == 2 {
        i + j * resolution
    } else if corner == 3 {
        i + j * resolution
    } else if corner == 4 {
        (i + 1) + j * resolution
    } else {
        (i + 1) + j
    }
}

/// The largest value an index takes for a grid of `resolution` vertices per
/// side, when there is at least one cell.
pub open spec fn largest_corner(resolution: int) -> int {
    (resolution - 1) + (resolution - 2) * resolution
}

/// Position of the first index of cell `(i, j)` in the index list, for a grid
/// of `cells` cells per side.
pub open spec fn cell_slot(cells: int, i: int, j: int) -> int {
    6 * (cells * i + j)
}

proof fn lemma_row_end(n: int, i: int)
    ensures
        n * (i + 1) == n * i + n,
{
    assert(n * (i + 1) == n * i + n) by (nonlinear_arith);
}

proof fn lemma_slot_in_square(n: int, i: int, j: int)
    requires
        0 <= i < n,
        0 <= j < n,
    ensures
        0 <= n * i + j < n * n,
{
    assert(0 <= n * i) by (nonlinear_arith)
        requires
            0 <= i,
            0 <= n,
    ;
    assert(n * i + j < n * n) by (nonlinear_arith)
        requires
            0 <= i < n,
            0 <= j < n,
    ;
}

proof fn lemma_corner_bounds(resolution: int, i: int, j: int, corner: int)
    requires
        2 <= resolution,
        0 <= i < resolution - 1,
        0 <= j < resolution - 1,
        0 <= corner < 6,
    ensures
        0 <= cell_corner(resolution, i, j, corner) <= largest_corner(resolution),
        largest_corner(resolution) < resolution * resolution,
        0 <= j * resolution <= (resolution - 2) * resolution,
{
    assert(0 <= j * resolution <= (resolution - 2) * resolution) by (nonlinear_arith)
        requires
            2 <= resolution,
            0 <= j <= resolution - 2,
    ;
    assert((resolution - 2) * resolution == resolution * resolution - 2 * resolution)
        by (nonlinear_arith);
    assert(resolution * resolution + 2 >= 3 * resolution) by (nonlinear_arith)
        requires
            2 <= resolution,
    ;
}

/// The grid vertices in the order in which the mesh's vertex list holds them:
/// `(idx, jdx)` at position `resolution * idx + jdx`, for `idx` and `jdx`
/// from 0 to `resolution - 1`.
pub fn vertex_grid(resolution: u32) -> (cells: Vec<(u32, u32)>)
    requires
        resolution * resolution <= usize::MAX,
    ensures
        cells.len() == resolution * resolution,
        forall|idx: int, jdx: int|
            0 <= idx < resolution && 0 <= jdx < resolution ==>
                #[trigger] cells@[vertex_slot(resolution as int, idx, jdx)] == (idx as u32, jdx as u32),
        forall|idx: int, jdx: int|
            0 <= idx < resolution && 0 <= jdx < resolution ==>
                #[trigger] cells@[resolution * idx + jdx] == (idx as u32, jdx as u32),
{
    let ghost r = resolution as int;
    let mut cells: Vec<(u32, u32)> = Vec::new();
    let mut idx: u32 = 0;
    while idx < resolution
        invariant
            r == resolution,
            r * r <= usize::MAX,
            idx <= resolution,
            cells.len() == r * idx,
            forall|a: int, b: int|
                0 <= b < r && 0 <= r * a + b < cells.len() && 0 <= a ==>
                    #[trigger] cells@[vertex_slot(r, a, b)] == (a as u32, b as u32),
        decreases resolution - idx,
    {
        let mut jdx: u32 = 0;
        while jdx < resolution
            invariant
                r == resolution,
                r * r <= usize::MAX,
                idx < resolution,
                jdx <= resolution,
                cells.len() == r * idx + jdx,
                forall|a: int, b: int|
                    0 <= b < r && 0 <= r * a + b < cells.len() && 0 <= a ==>
                        #[trigger] cells@[vertex_slot(r, a, b)] == (a as u32, b as u32),
            decreases resolution - jdx,
        {
            proof {
                lemma_slot_in_square(r, idx as int, jdx as int);
            }
            cells.push((idx, jdx));
            assert forall|a: int, b: int|
                0 <= b < r && 0 <= r * a + b < cells.len() && 0 <= a implies
                    #[trigger] cells@[vertex_slot(r, a, b)] == (a as u32, b as u32) by {
                if r * a + b == r * idx + jdx {
                    if a < idx {
                        assert(r * a + r <= r * idx) by (nonlinear_arith)
                            requires a < idx, 0 <= r;
                    } else if a > idx {
                        assert(r * idx + r <= r * a) by (nonlinear_arith)
                            requires idx < a, 0 <= r;
                    }
                }
            }
            jdx = jdx + 1;
        }
        proof {
            lemma_row_end(r, idx as int);
        }
        idx = idx + 1;
    }
    assert forall|a: int, b: int|
        0 <= a < resolution && 0 <= b < resolution implies
            #[trigger] cells@[vertex_slot(r, a, b)] == (a as u32, b as u32) by {
        lemma_slot_in_square(r, a, b);
    }
    assert forall|a: int, b: int|
        0 <= a < resolution && 0 <= b < resolution implies
            #[trigger] cells@[resolution * a + b] == (a as u32, b as u32) by {
        assert(cells@[vertex_slot(r, a, b)] == (a as u32, b as u32));
    }
    cells
}

/// The index list of the terrain mesh. For a grid of `resolution` vertices per
/// side there are `resolution - 1` cells per side; cell `(i, j)` contributes
/// the six indices `cell_corner(resolution, i, j, 0..6)` at `cell_slot`, cells
/// taken with `i` outer and `j` inner. Every index names a vertex of the grid,
/// and no index exceeds `largest_corner(resolution)`.
pub fn mesh_indices(resolution: u32) -> (indices: Vec<u32>)
    requires
        1 <= resolution,
        largest_corner(resolution as int) <= u32::MAX,
        6 * (resolution - 1) * (resolution - 1) <= usize::MAX,
    ensures
        indices.len() == 6 * (resolution - 1) * (resolution - 1),
        forall|i: int, j: int, corner: int|
            0 <= i < resolution - 1 && 0 <= j < resolution - 1 && 0 <= corner < 6 ==>
                #[trigger] indices@[cell_slot(resolution - 1, i, j) + corner] as int
                    == cell_corner(resolution as int, i, j, corner),
        forall|k: int| 0 <= k < indices.len() ==> #[trigger] indices@[k] < resolution * resolution,
        forall|i: int, j: int|
            0 <= i < resolution - 1 && 0 <= j < resolution - 1 ==>
                #[trigger] indices@[6 * ((resolution - 1) * i + j)] == i + j,
        forall|i: int, j: int|
            0 <= i < resolution - 1 && 0 <= j < resolution - 1 ==>
                #[trigger] indices@[6 * ((resolution - 1) * i + j) + 1] == i + 1 + j,
        forall|i: int, j: int|
            0 <= i < resolution - 1 && 0 <= j < resolution - 1 ==>
                #[trigger] indices@[6 * ((resolution - 1) * i + j) + 2] == i + j * resolution,
        forall|i: int, j: int|
            0 <= i < resolution - 1 && 0 <= j < resolution - 1 ==>
                #[trigger] indices@[6 * ((resolution - 1) * i + j) + 3] == i + j * resolution,
        forall|i: int, j: int|
            0 <= i < resolution - 1 && 0 <= j < resolution - 1 ==>
                #[trigger] indices@[6 * ((resolution - 1) * i + j) + 4] == i + 1 + j * resolution,
        forall|i: int, j: int|
            0 <= i < resolution - 1 && 0 <= j < resolution - 1 ==>
                #[trigger] indices@[6 * ((resolution - 1) * i + j) + 5] == i + 1 + j,
{
    let ghost r = resolution as int;
    let ghost n = r - 1;
    let cells: u32 = resolution - 1;
    let mut indices: Vec<u32> = Vec::new();
    let mut i: u32 = 0;
    proof {
        assert(6 * n * n == 6 * (n * n)) by (nonlinear_arith);
    }
    while i < cells
        invariant
            r == resolution,
            n == r - 1,
            cells == n,
            1 <= r,
            largest_corner(r) <= u32::MAX,
            6 * (n * n) <= usize::MAX,
            i <= cells,
            indices.len() == 6 * (n * i),
            forall|a: int, b: int, corner: int|
                0 <= a && 0 <= b < n && n * a + b < n * i && 0 <= corner < 6 ==>
                    #[trigger] indices@[cell_slot(n, a, b) + corner] as int == cell_corner(r, a, b, corner),
            forall|k: int| 0 <= k < indices.len() ==> #[trigger] indices@[k] < r * r,
        decreases cells - i,
    {
        let mut j: u32 = 0;
        while j < cells
            invariant
                r == resolution,
                n == r - 1,
                cells == n,
                2 <= r,
                largest_corner(r) <= u32::MAX,
                6 * (n * n) <= usize::MAX,
                i < cells,
                j <= cells,
                indices.len() == 6 * (n * i + j),
                forall|a: int, b: int, corner: int|
                    0 <= a && 0 <= b < n && n * a + b < n * i + j && 0 <= corner < 6 ==>
                        #[trigger] indices@[cell_slot(n, a, b) + corner] as int == cell_corner(r, a, b, corner),
                forall|k: int| 0 <= k < indices.len() ==> #[trigger] indices@[k] < r * r,
            decreases cells - j,
        {
            proof {
                lemma_slot_in_square(n, i as int, j as int);
                lemma_corner_bounds(r, i as int, j as int, 1);
                lemma_corner_bounds(r, i as int, j as int, 2);
                lemma_corner_bounds(r, i as int, j as int, 4);
                assert(6 * (n * i + j) + 6 <= 6 * (n * n));
            }
            let ghost before = indices@;
            let low = i + j;
            let row = j * resolution;
            indices.push(low);
            indices.push(low + 1);
            indices.push(i + row);
            indices.push(i + row);
            indices.push(i + 1 + row);
            indices.push(low + 1);
            assert forall|a: int, b: int, corner: int|
                0 <= a && 0 <= b < n && n * a + b < n * i + j + 1 && 0 <= corner < 6 implies
                    #[trigger] indices@[cell_slot(n, a, b) + corner] as int == cell_corner(r, a, b, corner) by {
                if n * a + b == n * i + j {
                    if a < i {
                        assert(n * a + n <= n * i) by (nonlinear_arith)
                            requires a < i, 0 <= n;
                    } else if a > i {
                        assert(n * i + n <= n * a) by (nonlinear_arith)
                            requires i < a, 0 <= n;
                    }
                    assert(a == i && b == j);
                } else {
                    assert(before[cell_slot(n, a, b) + corner] == indices@[cell_slot(n, a, b) + corner]);
                }
            }
            j = j + 1;
        }
        proof {
            lemma_row_end(n, i as int);
        }
        i = i + 1;
    }
    assert forall|a: int, b: int, corner: int|
        0 <= a < resolution - 1 && 0 <= b < resolution - 1 && 0 <= corner < 6 implies
            #[trigger] indices@[cell_slot(resolution - 1, a, b) + corner] as int
                == cell_corner(resolution as int, a, b, corner) by {
        lemma_slot_in_square(n, a, b);
    }
    proof {
        assert(6 * (n * n) == 6 * (resolution - 1) * (resolution - 1)) by (nonlinear_arith)
            requires n == resolution - 1;
    }
    assert forall|a: int, b: int|
        0 <= a < resolution - 1 && 0 <= b < resolution - 1 implies
            #[trigger] indices@[6 * ((resolution - 1) * a + b)] == a + b by {
        assert(indices@[cell_slot(resolution - 1, a, b) + 0] as int == cell_corner(r, a, b, 0));
    }
    assert forall|a: int, b: int|
        0 <= a < resolution - 1 && 0 <= b < resolution - 1 implies
            #[trigger] indices@[6 * ((resolution - 1) * a + b) + 1] == a + 1 + b by {
        assert(indices@[cell_slot(resolution - 1, a, b) + 1] as int == cell_corner(r, a, b, 1));
    }
    assert forall|a: int, b: int|
        0 <= a < resolution - 1 && 0 <= b < resolution - 1 implies
            #[trigger] indices@[6 * ((resolution - 1) * a + b) + 2] == a + b * resolution by {
        assert(indices@[cell_slot(resolution - 1, a, b) + 2] as int == cell_corner(r, a, b, 2));
    }
    assert forall|a: int, b: int|
        0 <= a < resolution - 1 && 0 <= b < resolution - 1 implies
            #[trigger] indices@[6 * ((resolution - 1) * a + b) + 3] == a + b * resolution by {
        assert(indices@[cell_slot(resolution - 1, a, b) + 3] as int == cell_corner(r, a, b, 3));
    }
    assert forall|a: int, b: int|
        0 <= a < resolution - 1 && 0 <= b < resolution - 1 implies
            #[trigger] indices@[6 * ((resolution - 1) * a + b) + 4] == a + 1 + b * resolution by {
        assert(indices@[cell_slot(resolution - 1, a, b) + 4] as int == cell_corner(r, a, b, 4));
    }
    assert forall|a: int, b: int|
        0 <= a < resolution - 1 && 0 <= b < resolution - 1 implies
            #[trigger] indices@[6 * ((resolution - 1) * a + b) + 5] == a + 1 + b by {
        assert(indices@[cell_slot(resolution - 1, a, b) + 5] as int == cell_corner(r, a, b, 5));
    }
    indices
}

/// Every index that a cell contributes names a vertex of the grid.
pub proof fn lemma_corners_in_grid(resolution: int, i: int, j: int, corner: int)
    requires
        2 <= resolution,
        0 <= i < resolution - 1,
        0 <= j < resolution - 1,
        0 <= corner < 6,
    ensures
        0 <= cell_corner(resolution, i, j, corner) < resolution * resolution,
{
    lemma_corner_bounds(resolution, i, j, corner);
}

/// The two triangles of a cell share an edge: the second triangle starts
/// with the first one's last index and ends with its middle index.
pub proof fn lemma_cell_triangles_share_edge(resolution: int, i: int, j: int)
    ensures
        cell_corner(resolution, i, j, 3) == cell_corner(resolution, i, j, 2),
        cell_corner(resolution, i, j, 5) == cell_corner(resolution, i, j, 1),
{
}

/// The vertex list runs row by row: vertex `(idx, jdx)` sits at
/// `resolution * idx + jdx`, each vertex is followed by its neighbour with the
/// next `jdx`, and the last vertex of a row by the first vertex of the next row.
pub proof fn lemma_vertex_order(resolution: int, idx: int, jdx: int)
    requires
        0 <= idx < resolution,
        0 <= jdx < resolution,
    ensures
        vertex_slot(resolution, idx, jdx) == resolution * idx + jdx,
        jdx + 1 < resolution ==> vertex_slot(resolution, idx, jdx + 1) == vertex_slot(resolution, idx, jdx) + 1,
        idx + 1 < resolution ==> vertex_slot(resolution, idx + 1, 0) == vertex_slot(resolution, idx, resolution - 1) + 1,
        0 <= vertex_slot(resolution, idx, jdx) < resolution * resolution,
{
    lemma_row_end(resolution, idx);
    lemma_slot_in_square(resolution, idx, jdx);
}

/// The six indices of cell `(i, j)` are `i + j`, `i + 1 + j`,
/// `i + j * resolution` (twice), `i + 1 + j * resolution` and `i + 1 + j`.
/// Moving one cell along `i` raises every index by one; moving one cell along
/// `j` raises the `j * resolution` indices by `resolution` and the others by one.
pub proof fn lemma_cell_indices(resolution: int, i: int, j: int)
    ensures
        cell_corner(resolution, i, j, 0) == i + j,
        cell_corner(resolution, i, j, 1) == i + 1 + j,
        cell_corner(resolution, i, j, 2) == i + j * resolution,
        cell_corner(resolution, i, j, 3) == i + j * resolution,
        cell_corner(resolution, i, j, 4) == i + 1 + j * resolution,
        cell_corner(resolution, i, j, 5) == i + 1 + j,
        forall|corner: int|
            0 <= corner < 6 ==> #[trigger] cell_corner(resolution, i + 1, j, corner)
                == cell_corner(resolution, i, j, corner) + 1,
        cell_corner(resolution, i, j + 1, 0) == cell_corner(resolution, i, j, 0) + 1,
        cell_corner(resolution, i, j + 1, 2) == cell_corner(resolution, i, j, 2) + resolution,
        cell_corner(resolution, i, j + 1, 4) == cell_corner(resolution, i, j, 4) + resolution,
        cell_slot(resolution - 1, i, j) == 6 * ((resolution - 1) * i + j),
{
    assert((j + 1) * resolution == j * resolution + resolution) by (nonlinear_arith);
}

} // verus!
