use chaos_game::geometry::{point_on_fraction, vertex_position, Point, SCALE};
use chaos_game::polygon::build_regular_polygon;

#[test]
fn fraction_zero_returns_first_endpoint() {
    let a = Point { x: 5 * SCALE + 3, y: 7 * SCALE + 11 };
    let b = Point { x: 9 * SCALE, y: 2 * SCALE + 1 };
    assert_eq!(point_on_fraction(a, b, 0, 6), a);
    assert_eq!(point_on_fraction(a, b, 0, 1), a);
}

#[test]
fn fraction_one_returns_second_endpoint() {
    let a = Point { x: 5 * SCALE + 3, y: 7 * SCALE + 11 };
    let b = Point { x: 9 * SCALE, y: 2 * SCALE + 1 };
    assert_eq!(point_on_fraction(a, b, 6, 6), b);
    assert_eq!(point_on_fraction(a, b, 1, 1), b);
}

#[test]
fn fraction_half_returns_exact_midpoint() {
    let a = Point { x: 10 * SCALE, y: 30 * SCALE };
    let b = Point { x: 20 * SCALE, y: 10 * SCALE };
    let mid = point_on_fraction(a, b, 1, 2);
    assert_eq!(mid, Point { x: 15 * SCALE, y: 20 * SCALE });
}

#[test]
fn fraction_direction_matters() {
    // One sixth of the way from `a` toward `b` is not one sixth of the
    // way from `b` toward `a`.
    let a = Point { x: 0, y: 0 };
    let b = Point { x: 60 * SCALE, y: 0 };
    assert_eq!(point_on_fraction(a, b, 1, 6).x, 10 * SCALE);
    assert_eq!(point_on_fraction(b, a, 1, 6).x, 50 * SCALE);
}

#[test]
fn vertex_position_is_deterministic() {
    let p1 = vertex_position(2, 7, 150, 300, 300);
    let p2 = vertex_position(2, 7, 150, 300, 300);
    assert_eq!(p1, p2);
}

#[test]
fn square_vertices_hit_exact_axis_points() {
    // At quadrant angles the fixed-point trigonometry is exact.
    let (_, verts) = build_regular_polygon(4, 100, 200, 200);
    assert_eq!(verts[0], Point { x: 300 * SCALE, y: 200 * SCALE });
    assert_eq!(verts[1], Point { x: 200 * SCALE, y: 300 * SCALE });
    assert_eq!(verts[2], Point { x: 100 * SCALE, y: 200 * SCALE });
    assert_eq!(verts[3], Point { x: 200 * SCALE, y: 100 * SCALE });
}

#[test]
fn polygon_has_side_count_vertices() {
    for n in [3u32, 4, 5, 6, 12, 100] {
        let (poly, verts) = build_regular_polygon(n, 200, 200, 200);
        assert_eq!(verts.len(), n as usize);
        assert_eq!(poly.vertices.len(), n as usize);
        assert_eq!(poly.vertices, verts);
    }
}

#[test]
fn vertices_lie_on_the_circle() {
    // Every vertex sits at the configured radius from the center, within
    // the tolerance of the rational sine approximation (under 0.5%).
    let radius: i128 = 200 * SCALE as i128;
    let r2: i128 = radius * radius;
    for n in [3u32, 4, 5, 6, 7, 12, 60] {
        let (_, verts) = build_regular_polygon(n, 200, 200, 200);
        for v in &verts {
            let dx = v.x as i128 - 200 * SCALE as i128;
            let dy = v.y as i128 - 200 * SCALE as i128;
            let d2 = dx * dx + dy * dy;
            let err = if d2 > r2 { d2 - r2 } else { r2 - d2 };
            assert!(err <= r2 / 100, "vertex off circle: n={n} v=({}, {})", v.x, v.y);
        }
    }
}
