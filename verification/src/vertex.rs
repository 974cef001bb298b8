use vstd::prelude::*;

verus! {

/// A vertex position in clip space. The full-screen triangle only needs
/// whole numbers, so the coordinates are held exactly as integers.
#[derive(Clone, Copy, Debug, PartialEq, Eq, Structural)]
pub struct ClipVertex {
    pub x: i32,
    pub y: i32,
    pub z: i32,
    pub w: i32,
}

/// Number of vertices the render pass draws: one triangle.
pub const FULLSCREEN_VERTEX_COUNT: u32 = 3;

/// The corners of the triangle that the vertex stage emits, by vertex index.
pub open spec fn fullscreen_corner(i: int) -> ClipVertex {
    if i == 0 {
        ClipVertex { x: -1i32, y: 1, z: 0, w: 1 }
    } else if i == 1 {
        ClipVertex { x: 3, y: 1, z: 0, w: 1 }
    } else {
        ClipVertex { x: -1i32, y: -3i32, z: 0, w: 1 }
    }
}

/// The vertex stage: the clip-space position of vertex `vert_id` of the
/// full-screen triangle. Only the indices `0..3` name a vertex.
pub fn fullscreen_vertex(vert_id: i32) -> (v: ClipVertex)
    requires
        0 <= vert_id < FULLSCREEN_VERTEX_COUNT,
    ensures
        v == fullscreen_corner(vert_id as int),
        vert_id == 0 ==> v == (ClipVertex { x: -1i32, y: 1, z: 0, w: 1 }),
        vert_id == 1 ==> v == (ClipVertex { x: 3, y: 1, z: 0, w: 1 }),
        vert_id == 2 ==> v == (ClipVertex { x: -1i32, y: -3i32, z: 0, w: 1 }),
{
    let positions: [ClipVertex; 3] = [
        ClipVertex { x: -1, y: 1, z: 0, w: 1 },
        ClipVertex { x: 3, y: 1, z: 0, w: 1 },
        ClipVertex { x: -1, y: -3, z: 0, w: 1 },
    ];
    positions[vert_id as usize]
}

/// Twice the signed area spanned by the edge `a -> b` and the point
/// `(px / d, py / d)`, scaled by `d`: its sign tells on which side of the
/// edge the point lies.
pub open spec fn edge_side(a: ClipVertex, b: ClipVertex, px: int, py: int, d: int) -> int {
    (b.x - a.x) * (py - a.y * d) - (b.y - a.y) * (px - a.x * d)
}

/// The point `(px / d, py / d)` lies in the triangle `a b c` (on its border
/// included), whichever way the triangle winds.
pub open spec fn triangle_covers(
    a: ClipVertex,
    b: ClipVertex,
    c: ClipVertex,
    px: int,
    py: int,
    d: int,
) -> bool {
    let e0 = edge_side(a, b, px, py, d);
    let e1 = edge_side(b, c, px, py, d);
    let e2 = edge_side(c, a, px, py, d);
    (e0 >= 0 && e1 >= 0 && e2 >= 0) || (e0 <= 0 && e1 <= 0 && e2 <= 0)
}

/// The triangle the vertex stage emits covers the whole viewport: every
/// point `(px / d, py / d)` of the clip-space square `[-1, 1] x [-1, 1]`
/// lies inside it, so the fragment stage runs for every pixel. Its
/// vertices have depth 0 and `w` 1, so clip space is the viewport itself.
pub proof fn lemma_fullscreen_triangle_covers_viewport(px: int, py: int, d: int)
    requires
        d > 0,
        -d <= px <= d,
        -d <= py <= d,
    ensures
        triangle_covers(fullscreen_corner(0), fullscreen_corner(1), fullscreen_corner(2), px, py, d),
        forall|i: int| 0 <= i < 3 ==> #[trigger] fullscreen_corner(i).z == 0 && fullscreen_corner(i).w == 1,
{
    let a = fullscreen_corner(0);
    let b = fullscreen_corner(1);
    let c = fullscreen_corner(2);
    // Each edge's side, worked out for these corners.
    assert(edge_side(a, b, px, py, d) == 4 * (py - d)) by (nonlinear_arith)
        requires
            a.x == -1 && a.y == 1 && b.x == 3 && b.y == 1,
    ;
    assert(edge_side(b, c, px, py, d) == 4 * (px - py - 2 * d)) by (nonlinear_arith)
        requires
            b.x == 3 && b.y == 1 && c.x == -1 && c.y == -3,
    ;
    assert(edge_side(c, a, px, py, d) == -4 * (px + d)) by (nonlinear_arith)
        requires
            c.x == -1 && c.y == -3 && a.x == -1 && a.y == 1,
    ;
}

} // verus!
