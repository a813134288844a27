//! The reference grid: three line segments through the origin, one along each
//! axis, from -1 to +1.

use vstd::prelude::*;

verus! {

/// The segment endpoints in drawing order, two per segment: the z axis, then
/// the x axis, then the y axis, each from its negative end to its positive end.
pub open spec fn axis_endpoints() -> Seq<(i8, i8, i8)> {
    seq![
        (0i8, 0i8, -1i8),
        (0i8, 0i8, 1i8),
        (-1i8, 0i8, 0i8),
        (1i8, 0i8, 0i8),
        (0i8, -1i8, 0i8),
        (0i8, 1i8, 0i8),
    ]
}

/// The point at distance 1 from the origin along `axis` (0, 1 or 2 for x, y
/// or z), in the direction given by `positive`.
pub open spec fn unit_point(axis: int, positive: bool) -> (i8, i8, i8) {
    let s: i8 = if positive { 1i8 } else { -1i8 };
    if axis == 0 {
        (s, 0i8, 0i8)
    } else if axis == 1 {
        (0i8, s, 0i8)
    } else {
        (0i8, 0i8, s)
    }
}

/// The axis that segment `line` (0, 1 or 2 in drawing order) runs along.
pub open spec fn segment_axis(line: int) -> int {
    if line == 0 {
        2
    } else if line == 1 {
        0
    } else {
        1
    }
}

/// The vertices of the grid's line list, in unit coordinates.
pub fn axis_line_vertices() -> (vertices: Vec<(i8, i8, i8)>)
    ensures
        vertices@ == axis_endpoints(),
        vertices@ == seq![
            (0i8, 0i8, -1i8),
            (0i8, 0i8, 1i8),
            (-1i8, 0i8, 0i8),
            (1i8, 0i8, 0i8),
            (0i8, -1i8, 0i8),
            (0i8, 1i8, 0i8),
        ],
{
    let mut vertices: Vec<(i8, i8, i8)> = Vec::new();
    vertices.push((0, 0, -1));
    vertices.push((0, 0, 1));
    vertices.push((-1, 0, 0));
    vertices.push((1, 0, 0));
    vertices.push((0, -1, 0));
    vertices.push((0, 1, 0));
    assert(vertices@ == axis_endpoints());
    vertices
}

/// Each of the three segments runs from -1 to +1 along its own axis, and the
/// three segments cover the three axes.
pub proof fn lemma_segments_span_axes(line: int)
    requires
        0 <= line < 3,
    ensures
        axis_endpoints()[2 * line] == unit_point(segment_axis(line), false),
        axis_endpoints()[2 * line + 1] == unit_point(segment_axis(line), true),
        forall|other: int| 0 <= other < 3 && other != line ==> segment_axis(other) != segment_axis(line),
        axis_endpoints().len() == 6,
{
}

} // verus!
