//! The vehicle hull: seven vertices joined into seven triangles, and the
//! flat-shading layout of its normals, one normal per drawn corner.
//!
//! Hull coordinates are given in thousandths of a scene unit, so that the
//! geometry can be reasoned about exactly; the renderer divides by 1000.

use vstd::prelude::*;

verus! {

/// Number of vertices of the hull.
pub const HULL_VERTEX_COUNT: usize = 7;

/// Number of corners of a triangle.
pub const TRIANGLE_CORNERS: usize = 3;

/// The hull's index list: triangle `f` is made of entries `3f`, `3f + 1`,
/// `3f + 2`.
pub open spec fn hull_triangles() -> Seq<i32> {
    seq![0, 1, 2, 3, 4, 1, 3, 2, 5, 6, 0, 1, 6, 0, 2, 6, 4, 1, 6, 2, 5]
}

/// For each triangle, the two of its corners `(a, b)` whose cross product
/// `a x b` gives the triangle's normal. Triangles 3 and 4 share the normal of
/// vertices 6 and 0. Triangle 5 `(6, 4, 1)` takes vertices 6 and 4; vertex 3,
/// the origin, would give a zero cross product and no normal at all.
pub open spec fn normal_sources() -> Seq<(usize, usize)> {
    seq![(0, 1), (4, 1), (2, 5), (6, 0), (6, 0), (6, 4), (6, 2)]
}

/// The hull vertices, in thousandths of a scene unit.
pub open spec fn hull_points() -> Seq<(i32, i32, i32)> {
    seq![
        (21i32, 0i32, 0i32),
        (0i32, 21i32, 0i32),
        (0i32, -21i32, 0i32),
        (0i32, 0i32, 0i32),
        (-31i32, 31i32, 0i32),
        (-31i32, -31i32, 0i32),
        (0i32, 0i32, 11i32),
    ]
}

/// The cross product `p x q`.
pub open spec fn cross(p: (i32, i32, i32), q: (i32, i32, i32)) -> (int, int, int) {
    (
        p.1 * q.2 - p.2 * q.1,
        p.2 * q.0 - p.0 * q.2,
        p.0 * q.1 - p.1 * q.0,
    )
}

/// The hull vertices, in thousandths of a scene unit: vertex `v` of the index
/// list is entry `v`.
pub fn hull_vertices_milli() -> (vertices: Vec<(i32, i32, i32)>)
    ensures
        vertices@ == hull_points(),
        vertices.len() == HULL_VERTEX_COUNT,
        vertices@ == seq![
            (21i32, 0i32, 0i32),
            (0i32, 21i32, 0i32),
            (0i32, -21i32, 0i32),
            (0i32, 0i32, 0i32),
            (-31i32, 31i32, 0i32),
            (-31i32, -31i32, 0i32),
            (0i32, 0i32, 11i32),
        ],
{
    let vertices: Vec<(i32, i32, i32)> = vec![
        (21, 0, 0),
        (0, 21, 0),
        (0, -21, 0),
        (0, 0, 0),
        (-31, 31, 0),
        (-31, -31, 0),
        (0, 0, 11),
    ];
    assert(vertices@ == hull_points());
    vertices
}

/// The index list of the hull, in the order in which it is drawn.
pub fn hull_indices() -> (indices: Vec<i32>)
    ensures
        indices@ == hull_triangles(),
        forall|k: int| 0 <= k < indices.len() ==> 0 <= #[trigger] indices@[k] < HULL_VERTEX_COUNT,
        indices@ == seq![
            0i32, 1i32, 2i32, 3i32, 4i32, 1i32, 3i32, 2i32, 5i32, 6i32, 0i32,
            1i32, 6i32, 0i32, 2i32, 6i32, 4i32, 1i32, 6i32, 2i32, 5i32,
        ],
        HULL_VERTEX_COUNT == 7,
{
    let indices: Vec<i32> = vec![0, 1, 2, 3, 4, 1, 3, 2, 5, 6, 0, 1, 6, 0, 2, 6, 4, 1, 6, 2, 5];
    assert(indices@ == hull_triangles());
    indices
}

/// The vertex pairs from which the normal of each triangle is computed, in
/// triangle order.
pub fn face_normal_sources() -> (sources: Vec<(usize, usize)>)
    ensures
        sources@ == normal_sources(),
        sources@ == seq![
            (0usize, 1usize),
            (4usize, 1usize),
            (2usize, 5usize),
            (6usize, 0usize),
            (6usize, 0usize),
            (6usize, 4usize),
            (6usize, 2usize),
        ],
        forall|f: int|
            0 <= f < sources.len() ==> (#[trigger] sources@[f]).0 < HULL_VERTEX_COUNT
                && sources@[f].1 < HULL_VERTEX_COUNT,
{
    let sources: Vec<(usize, usize)> = vec![(0, 1), (4, 1), (2, 5), (6, 0), (6, 0), (6, 4), (6, 2)];
    assert(sources@ == normal_sources());
    sources
}

/// Repeats each per-face value once for every corner of the face, so that
/// corner `c` of face `f` finds its face's value at `corners * f + c`: the
/// layout of a flat-shaded attribute, given per drawn vertex.
pub fn per_corner<T: Copy>(per_face: &Vec<T>, corners: usize) -> (values: Vec<T>)
    requires
        per_face.len() * corners <= usize::MAX,
    ensures
        values.len() == per_face.len() * corners,
        forall|f: int, c: int|
            0 <= f < per_face.len() && 0 <= c < corners ==>
                #[trigger] values@[corners * f + c] == per_face@[f],
{
    let ghost m = corners as int;
    let faces = per_face.len();
    let mut values: Vec<T> = Vec::new();
    let mut f: usize = 0;
    while f < faces
        invariant
            m == corners,
            faces == per_face.len(),
            faces * m <= usize::MAX,
            f <= faces,
            values.len() == m * f,
            forall|a: int, c: int|
                0 <= a && 0 <= c < m && m * a + c < values.len() ==>
                    #[trigger] values@[m * a + c] == per_face@[a],
        decreases faces - f,
    {
        let value = per_face[f];
        let mut c: usize = 0;
        proof {
            assert(m * f + m <= faces * m) by (nonlinear_arith)
                requires f < faces, 0 <= m;
        }
        while c < corners
            invariant
                m == corners,
                faces == per_face.len(),
                faces * m <= usize::MAX,
                f < faces,
                value == per_face@[f as int],
                c <= corners,
                m * f + m <= faces * m,
                values.len() == m * f + c,
                forall|a: int, cc: int|
                    0 <= a && 0 <= cc < m && m * a + cc < values.len() ==>
                        #[trigger] values@[m * a + cc] == per_face@[a],
            decreases corners - c,
        {
            let ghost before = values@;
            values.push(value);
            assert forall|a: int, cc: int|
                0 <= a && 0 <= cc < m && m * a + cc < values.len() implies
                    #[trigger] values@[m * a + cc] == per_face@[a] by {
                if m * a + cc == m * f + c {
                    if a < f {
                        assert(m * a + m <= m * f) by (nonlinear_arith)
                            requires a < f, 0 <= m;
                    } else if a > f {
                        assert(m * f + m <= m * a) by (nonlinear_arith)
                            requires f < a, 0 <= m;
                    }
                } else {
                    assert(before[m * a + cc] == values@[m * a + cc]);
                }
            }
            c = c + 1;
        }
        proof {
            assert(m * (f + 1) == m * f + m) by (nonlinear_arith);
        }
        f = f + 1;
    }
    assert forall|a: int, c: int|
        0 <= a < per_face.len() && 0 <= c < corners implies
            #[trigger] values@[corners * a + c] == per_face@[a] by {
        assert(m * a + c < faces * m) by (nonlinear_arith)
            requires a < faces, 0 <= c < m;
        assert(0 <= m * a) by (nonlinear_arith)
            requires 0 <= a, 0 <= m;
    }
    proof {
        assert(m * faces == faces * m) by (nonlinear_arith);
    }
    values
}

/// The hull has one normal source per triangle, so laying the triangle
/// normals out per corner gives exactly one normal per drawn index.
pub proof fn lemma_one_normal_per_index()
    ensures
        normal_sources().len() * TRIANGLE_CORNERS == hull_triangles().len(),
        hull_triangles().len() % 3 == 0,
{
}

/// Whether hull vertex `v` is a corner of triangle `f`.
pub open spec fn triangle_has_corner(f: int, v: int) -> bool {
    let t = hull_triangles();
    t[3 * f] == v || t[3 * f + 1] == v || t[3 * f + 2] == v
}

/// Each triangle's normal is taken from two of its own corners.
pub proof fn lemma_normal_sources_on_triangle(f: int)
    requires
        0 <= f < 7,
    ensures
        triangle_has_corner(f, normal_sources()[f].0 as int),
        triangle_has_corner(f, normal_sources()[f].1 as int),
        normal_sources()[f].0 != normal_sources()[f].1,
{
}

/// Each triangle's normal source pair has a non-zero cross product, so the
/// normal can be normalized.
pub proof fn lemma_normal_sources_non_degenerate(f: int)
    requires
        0 <= f < 7,
    ensures
        ({
            let (a, b) = normal_sources()[f];
            cross(hull_points()[a as int], hull_points()[b as int]) != (0int, 0int, 0int)
        }),
        hull_points().len() == HULL_VERTEX_COUNT,
{
    let p = hull_points();
    assert(p[0] == (21i32, 0i32, 0i32));
    assert(p[1] == (0i32, 21i32, 0i32));
    assert(p[2] == (0i32, -21i32, 0i32));
    assert(p[4] == (-31i32, 31i32, 0i32));
    assert(p[5] == (-31i32, -31i32, 0i32));
    assert(p[6] == (0i32, 0i32, 11i32));
    assert(cross((21i32, 0i32, 0i32), (0i32, 21i32, 0i32)) == (0int, 0int, 441int)) by (nonlinear_arith);
    assert(cross((-31i32, 31i32, 0i32), (0i32, 21i32, 0i32)) == (0int, 0int, -651int)) by (nonlinear_arith);
    assert(cross((0i32, -21i32, 0i32), (-31i32, -31i32, 0i32)) == (0int, 0int, -651int)) by (nonlinear_arith);
    assert(cross((0i32, 0i32, 11i32), (21i32, 0i32, 0i32)) == (0int, 231int, 0int)) by (nonlinear_arith);
    assert(cross((0i32, 0i32, 11i32), (-31i32, 31i32, 0i32)) == (-341int, -341int, 0int)) by (nonlinear_arith);
    assert(cross((0i32, 0i32, 11i32), (0i32, -21i32, 0i32)) == (231int, 0int, 0int)) by (nonlinear_arith);
}

} // verus!
