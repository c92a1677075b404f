use chaos_game::canvas::{Canvas, Color};
use chaos_game::geometry::{Point, SCALE};

fn white() -> Color {
    Color { r: 255, g: 255, b: 255 }
}

fn black() -> Color {
    Color { r: 0, g: 0, b: 0 }
}

#[test]
fn new_canvas_is_all_background() {
    let c = Canvas::new(40, 30, white());
    assert_eq!(c.width, 40);
    assert_eq!(c.height, 30);
    assert_eq!(c.pixels.len(), 40 * 30);
    for py in 0..30 {
        for px in 0..40 {
            assert_eq!(c.get_pixel(px, py), white());
        }
    }
}

#[test]
fn plot_writes_the_containing_pixel_only() {
    let mut c = Canvas::new(10, 10, white());
    // A point inside pixel (2, 3): coordinates are truncated to whole
    // pixels.
    let p = Point { x: 2 * SCALE + SCALE / 2, y: 3 * SCALE + SCALE / 4 };
    c.plot(p, black());
    for py in 0..10 {
        for px in 0..10 {
            let want = if (px, py) == (2, 3) { black() } else { white() };
            assert_eq!(c.get_pixel(px, py), want, "pixel ({px}, {py})");
        }
    }
}

#[test]
fn plot_on_pixel_boundary_truncates_down() {
    let mut c = Canvas::new(10, 10, white());
    c.plot(Point { x: 4 * SCALE, y: 9 * SCALE }, black());
    assert_eq!(c.get_pixel(4, 9), black());
    assert_eq!(c.get_pixel(3, 9), white());
    assert_eq!(c.get_pixel(4, 8), white());
}

#[test]
fn plot_twice_keeps_last_color() {
    let mut c = Canvas::new(5, 5, white());
    let p = Point { x: SCALE, y: SCALE };
    c.plot(p, black());
    c.plot(p, Color { r: 7, g: 8, b: 9 });
    assert_eq!(c.get_pixel(1, 1), Color { r: 7, g: 8, b: 9 });
}
