//! Polygons and a verified point-in-polygon test.
//!
//! A polygon is an ordered list of at least three vertices; the boundary
//! closes from the last vertex back to the first. Containment is the
//! crossing-number test: a point is inside when a horizontal ray cast from
//! it toward larger x crosses an odd number of edges. With half-open edges
//! (an edge counts only while `y` is in `[min(a.y, b.y), max(a.y, b.y))`)
//! every vertex is counted exactly once, so the parity is well defined.

use vstd::prelude::*;

use crate::geometry::{Point, MAX_COORD, SCALE};

verus! {

/// Twice the signed area of the triangle `(a, b, p)`: positive when `p`
/// lies to the left of the directed line from `a` to `b`.
pub open spec fn cross(a: Point, b: Point, p: Point) -> int {
    (b.x - a.x) * (p.y - a.y) - (p.x - a.x) * (b.y - a.y)
}

/// Whether the horizontal ray from `p` toward larger x crosses the edge
/// from `a` to `b`.
pub open spec fn edge_crosses(a: Point, b: Point, p: Point) -> bool {
    if a.y <= p.y && b.y > p.y {
        cross(a, b, p) > 0
    } else if b.y <= p.y && a.y > p.y {
        cross(a, b, p) < 0
    } else {
        false
    }
}

/// The successor of index `i` along the closed boundary of an `n`-gon.
pub open spec fn next_vertex(n: int, i: int) -> int {
    if i + 1 == n {
        0
    } else {
        i + 1
    }
}

/// How many of the first `k` edges of the closed boundary of `vs` the
/// ray from `p` crosses.
pub open spec fn crossings(vs: Seq<Point>, p: Point, k: int) -> nat
    decreases k,
{
    if k <= 0 {
        0
    } else {
        crossings(vs, p, k - 1) + (if edge_crosses(
            vs[k - 1],
            vs[next_vertex(vs.len() as int, k - 1)],
            p,
        ) {
            1nat
        } else {
            0nat
        })
    }
}

/// The crossing-number containment test: `p` is inside `vs` when the ray
/// from `p` crosses an odd number of boundary edges.
pub open spec fn polygon_contains(vs: Seq<Point>, p: Point) -> bool {
    crossings(vs, p, vs.len() as int) % 2 == 1
}

/// A simple closed polygon: the ordered list of its vertices.
pub struct Polygon {
    pub vertices: Vec<Point>,
}

impl Polygon {
    /// At least three vertices, all with coordinates the geometry
    /// functions accept.
    pub open spec fn wf(self) -> bool {
        &&& self.vertices@.len() >= 3
        &&& forall|i: int|
            0 <= i < self.vertices@.len() ==> (#[trigger] self.vertices@[i]).x <= MAX_COORD
                && self.vertices@[i].y <= MAX_COORD
    }

    /// Whether `p` lies inside this polygon, by the crossing-number test.
    pub fn contains(&self, p: Point) -> (r: bool)
        requires
            self.wf(),
            p.x <= MAX_COORD,
            p.y <= MAX_COORD,
        ensures
            r == polygon_contains(self.vertices@, p),
    {
        let n: usize = self.vertices.len();
        let mut inside: bool = false;
        let mut i: usize = 0;
        while i < n
            invariant
                self.wf(),
                p.x <= MAX_COORD,
                p.y <= MAX_COORD,
                n == self.vertices@.len(),
                i <= n,
                inside == (crossings(self.vertices@, p, i as int) % 2 == 1),
            decreases n - i,
        {
            let a: Point = self.vertices[i];
            let j: usize = if i + 1 == n {
                0
            } else {
                i + 1
            };
            let b: Point = self.vertices[j];
            if edge_crosses_exec(a, b, p) {
                inside = !inside;
            }
            i = i + 1;
        }
        inside
    }
}

/// The vertices of the regular polygon with `side_count` vertices on the
/// circle of the given radius around `(cx, cy)`, in increasing-angle
/// order.
pub open spec fn regular_polygon_vertices(
    side_count: int,
    radius: int,
    cx: int,
    cy: int,
) -> Seq<Point> {
    Seq::new(
        side_count as nat,
        |k: int|
            Point {
                x: crate::geometry::vertex_x_spec(k, side_count, radius, cx) as u64,
                y: crate::geometry::vertex_y_spec(k, side_count, radius, cy) as u64,
            },
    )
}

/// Builds the regular polygon with `side_count` vertices on the circle of
/// the given radius around `(cx, cy)` (all in pixels), and returns both the
/// closed polygon and its vertices as an explicit ordered list, so that a
/// caller can pick vertices by index. Vertex `k` sits at angle
/// `k / side_count` of a full turn; the list is in increasing-angle order
/// and pinned exactly to `vertex_x_spec` / `vertex_y_spec`.
pub fn build_regular_polygon(side_count: u32, radius: u32, cx: u32, cy: u32) -> (r: (
    Polygon,
    Vec<Point>,
))
    requires
        3 <= side_count,
        side_count <= crate::geometry::TURN,
        1 <= radius,
        radius <= cx,
        cx + radius <= crate::geometry::MAX_DIM,
        radius <= cy,
        cy + radius <= crate::geometry::MAX_DIM,
    ensures
        r.1@.len() == side_count,
        forall|k: int|
            0 <= k < side_count ==> (#[trigger] r.1@[k]).x == crate::geometry::vertex_x_spec(
                k,
                side_count as int,
                radius as int,
                cx as int,
            ) && r.1@[k].y == crate::geometry::vertex_y_spec(
                k,
                side_count as int,
                radius as int,
                cy as int,
            ),
        forall|k: int|
            0 <= k < side_count ==> (cx - radius) * SCALE <= (#[trigger] r.1@[k]).x <= (cx
                + radius) * SCALE && (cy - radius) * SCALE <= r.1@[k].y <= (cy + radius) * SCALE,
        r.1@ == regular_polygon_vertices(side_count as int, radius as int, cx as int, cy as int),
        r.0.vertices@ == r.1@,
        r.0.wf(),
{
    let mut verts: Vec<Point> = Vec::new();
    let mut k: u32 = 0;
    while k < side_count
        invariant
            3 <= side_count,
            side_count <= crate::geometry::TURN,
            1 <= radius,
            radius <= cx,
            cx + radius <= crate::geometry::MAX_DIM,
            radius <= cy,
            cy + radius <= crate::geometry::MAX_DIM,
            k <= side_count,
            verts@.len() == k,
            forall|j: int|
                0 <= j < k ==> (#[trigger] verts@[j]).x == crate::geometry::vertex_x_spec(
                    j,
                    side_count as int,
                    radius as int,
                    cx as int,
                ) && verts@[j].y == crate::geometry::vertex_y_spec(
                    j,
                    side_count as int,
                    radius as int,
                    cy as int,
                ),
            forall|j: int|
                0 <= j < k ==> (cx - radius) * SCALE <= (#[trigger] verts@[j]).x <= (cx + radius)
                    * SCALE && (cy - radius) * SCALE <= verts@[j].y <= (cy + radius) * SCALE,
        decreases side_count - k,
    {
        let v: Point = crate::geometry::vertex_position(k, side_count, radius, cx, cy);
        verts.push(v);
        k = k + 1;
    }
    proof {
        assert(forall|j: int|
            0 <= j < verts@.len() ==> (#[trigger] verts@[j]).x <= MAX_COORD && verts@[j].y
                <= MAX_COORD);
    }
    let edges: Vec<Point> = verts.clone();
    proof {
        assert(edges@ =~= verts@);
        assert(verts@ =~= regular_polygon_vertices(
            side_count as int,
            radius as int,
            cx as int,
            cy as int,
        ));
    }
    (Polygon { vertices: verts }, edges)
}

fn cross_exec(a: Point, b: Point, p: Point) -> (r: i64)
    requires
        a.x <= MAX_COORD,
        a.y <= MAX_COORD,
        b.x <= MAX_COORD,
        b.y <= MAX_COORD,
        p.x <= MAX_COORD,
        p.y <= MAX_COORD,
    ensures
        r == cross(a, b, p),
{
    let ax: i64 = a.x as i64;
    let ay: i64 = a.y as i64;
    let bx: i64 = b.x as i64;
    let by: i64 = b.y as i64;
    let px: i64 = p.x as i64;
    let py: i64 = p.y as i64;
    proof {
        assert((bx - ax) * (py - ay) <= MAX_COORD * MAX_COORD && (bx - ax) * (py - ay)
            >= -(MAX_COORD * MAX_COORD) && (px - ax) * (by - ay) <= MAX_COORD * MAX_COORD && (px
            - ax) * (by - ay) >= -(MAX_COORD * MAX_COORD)) by (nonlinear_arith)
            requires
                -(MAX_COORD as int) <= bx - ax <= MAX_COORD as int,
                -(MAX_COORD as int) <= py - ay <= MAX_COORD as int,
                -(MAX_COORD as int) <= px - ax <= MAX_COORD as int,
                -(MAX_COORD as int) <= by - ay <= MAX_COORD as int,
        ;
    }
    (bx - ax) * (py - ay) - (px - ax) * (by - ay)
}

fn edge_crosses_exec(a: Point, b: Point, p: Point) -> (r: bool)
    requires
        a.x <= MAX_COORD,
        a.y <= MAX_COORD,
        b.x <= MAX_COORD,
        b.y <= MAX_COORD,
        p.x <= MAX_COORD,
        p.y <= MAX_COORD,
    ensures
        r == edge_crosses(a, b, p),
{
    if a.y <= p.y && b.y > p.y {
        cross_exec(a, b, p) > 0
    } else if b.y <= p.y && a.y > p.y {
        cross_exec(a, b, p) < 0
    } else {
        false
    }
}

proof fn lemma_crossings_zero(vs: Seq<Point>, p: Point, k: int)
    requires
        0 <= k <= vs.len(),
        forall|i: int| 0 <= i < vs.len() ==> !edge_crosses(vs[i], vs[next_vertex(vs.len() as int, i)], p),
    ensures
        crossings(vs, p, k) == 0,
    decreases k,
{
    if k > 0 {
        lemma_crossings_zero(vs, p, k - 1);
    }
}

/// A point no lower than every vertex is outside: no edge reaches above
/// it, so the ray from it crosses nothing.
pub proof fn lemma_point_above_is_outside(vs: Seq<Point>, p: Point)
    requires
        forall|i: int| 0 <= i < vs.len() ==> (#[trigger] vs[i]).y <= p.y,
    ensures
        !polygon_contains(vs, p),
{
    lemma_crossings_zero(vs, p, vs.len() as int);
}

/// A point strictly below every vertex is outside.
pub proof fn lemma_point_below_is_outside(vs: Seq<Point>, p: Point)
    requires
        forall|i: int| 0 <= i < vs.len() ==> (#[trigger] vs[i]).y > p.y,
    ensures
        !polygon_contains(vs, p),
{
    lemma_crossings_zero(vs, p, vs.len() as int);
}

proof fn lemma_edge_right_no_cross(a: Point, b: Point, p: Point)
    requires
        a.x <= p.x,
        b.x <= p.x,
    ensures
        !edge_crosses(a, b, p),
{
    if a.y <= p.y && b.y > p.y {
        assert((b.x - a.x) * (p.y - a.y) - (p.x - a.x) * (b.y - a.y) <= 0) by (nonlinear_arith)
            requires
                a.x <= p.x,
                b.x <= p.x,
                a.y <= p.y,
                b.y > p.y,
        ;
    } else if b.y <= p.y && a.y > p.y {
        assert((b.x - a.x) * (p.y - a.y) - (p.x - a.x) * (b.y - a.y) >= 0) by (nonlinear_arith)
            requires
                a.x <= p.x,
                b.x <= p.x,
                b.y <= p.y,
                a.y > p.y,
        ;
    }
}

/// A point no further left than every vertex is outside: the ray toward
/// larger x starts beyond every edge.
pub proof fn lemma_point_right_is_outside(vs: Seq<Point>, p: Point)
    requires
        forall|i: int| 0 <= i < vs.len() ==> (#[trigger] vs[i]).x <= p.x,
    ensures
        !polygon_contains(vs, p),
{
    assert forall|i: int| 0 <= i < vs.len() implies !edge_crosses(
        vs[i],
        vs[next_vertex(vs.len() as int, i)],
        p,
    ) by {
        lemma_edge_right_no_cross(vs[i], vs[next_vertex(vs.len() as int, i)], p);
    }
    lemma_crossings_zero(vs, p, vs.len() as int);
}

} // verus!
