use chaos_game::geometry::{Point, SCALE};
use chaos_game::polygon::build_regular_polygon;

#[test]
fn centroid_is_inside() {
    // The polygon is built around its center, so the center is its
    // centroid; the containment test must accept it.
    for n in [3u32, 4, 5, 6, 9, 17] {
        let (poly, _) = build_regular_polygon(n, 200, 200, 200);
        assert!(poly.contains(Point { x: 200 * SCALE, y: 200 * SCALE }), "centroid left out, n={n}");
    }
}

#[test]
fn far_away_point_is_outside() {
    let (poly, _) = build_regular_polygon(6, 200, 200, 200);
    // Beyond the canvas on each side.
    assert!(!poly.contains(Point { x: 200 * SCALE, y: 2000 * SCALE }));
    assert!(!poly.contains(Point { x: 2000 * SCALE, y: 200 * SCALE }));
    assert!(!poly.contains(Point { x: 200 * SCALE, y: 0 }));
    // Left of the lower-left edge; x = 0 meets the hexagon only at
    // y = 200, its leftmost vertex.
    assert!(!poly.contains(Point { x: 0, y: 100 * SCALE }));
}

#[test]
fn canvas_corner_is_outside_hexagon() {
    // The hexagon touches the canvas edges at its vertices but leaves the
    // corners uncovered.
    let (poly, _) = build_regular_polygon(6, 200, 200, 200);
    assert!(!poly.contains(Point { x: 0, y: 0 }));
    assert!(!poly.contains(Point { x: 400 * SCALE, y: 400 * SCALE }));
}

#[test]
fn triangle_containment_matches_shape() {
    // Vertices of the triangle with radius 200 around (200, 200) sit near
    // (400, 200), (100, 373) and (100, 27).
    let (poly, verts) = build_regular_polygon(3, 200, 200, 200);
    assert_eq!(verts.len(), 3);
    assert!(poly.contains(Point { x: 150 * SCALE, y: 200 * SCALE }));
    assert!(poly.contains(Point { x: 350 * SCALE, y: 200 * SCALE }));
    assert!(!poly.contains(Point { x: 390 * SCALE, y: 390 * SCALE }));
    assert!(!poly.contains(Point { x: 50 * SCALE, y: 200 * SCALE }));
}

#[test]
fn point_near_vertex_but_outside_is_rejected() {
    let (poly, verts) = build_regular_polygon(6, 200, 200, 200);
    // Just beyond the rightmost vertex.
    let v = verts[0];
    assert!(!poly.contains(Point { x: v.x + SCALE, y: v.y }));
}
