use chaos_game::canvas::{Canvas, Color};
use chaos_game::engine::{acquire_seed, chaos_step, render, Config, ConfigError};
use chaos_game::geometry::{Point, SCALE};
use chaos_game::polygon::build_regular_polygon;

fn white() -> Color {
    Color { r: 255, g: 255, b: 255 }
}

fn black() -> Color {
    Color { r: 0, g: 0, b: 0 }
}

fn classic_config(side_count: u32, frac_num: u32, frac_den: u32, iterations: u32) -> Config {
    Config::new(side_count, 200, 401, 401, frac_num, frac_den, iterations, 100000).unwrap()
}

fn count_color(c: &Canvas, color: Color) -> usize {
    let mut n: usize = 0;
    for py in 0..c.height {
        for px in 0..c.width {
            if c.get_pixel(px, py) == color {
                n += 1;
            }
        }
    }
    n
}

#[test]
fn config_accepts_the_classic_hexagon_run() {
    let cfg = Config::new(6, 200, 401, 401, 1, 6, 100000, 1000).unwrap();
    assert_eq!(cfg.side_count, 6);
    assert_eq!(cfg.radius, 200);
    assert_eq!(cfg.width, 401);
    assert_eq!(cfg.height, 401);
    assert_eq!(cfg.frac_num, 1);
    assert_eq!(cfg.frac_den, 6);
    assert_eq!(cfg.iterations, 100000);
    assert_eq!(cfg.seed_tries, 1000);
}

#[test]
fn config_rejects_too_few_sides() {
    assert_eq!(Config::new(2, 200, 401, 401, 1, 6, 1, 1), Err(ConfigError::TooFewSides));
}

#[test]
fn config_rejects_too_many_sides() {
    assert_eq!(Config::new(70000, 200, 401, 401, 1, 6, 1, 1), Err(ConfigError::TooManySides));
}

#[test]
fn config_rejects_zero_radius() {
    assert_eq!(Config::new(6, 0, 401, 401, 1, 6, 1, 1), Err(ConfigError::ZeroRadius));
}

#[test]
fn config_rejects_empty_canvas() {
    assert_eq!(Config::new(6, 200, 0, 401, 1, 6, 1, 1), Err(ConfigError::CanvasEmpty));
    assert_eq!(Config::new(6, 200, 401, 0, 1, 6, 1, 1), Err(ConfigError::CanvasEmpty));
}

#[test]
fn config_rejects_huge_canvas() {
    assert_eq!(Config::new(6, 200, 5000, 401, 1, 6, 1, 1), Err(ConfigError::CanvasTooLarge));
}

#[test]
fn config_rejects_radius_beyond_canvas() {
    // Radius 201 pushes the rightmost vertex past column 400 of a
    // 401-pixel canvas.
    assert_eq!(Config::new(6, 201, 401, 401, 1, 6, 1, 1), Err(ConfigError::RadiusTooLarge));
    // On an even 400-pixel canvas radius 200 would land on column 400,
    // one past the last; the margin pixel of the 401 canvas is needed.
    assert_eq!(Config::new(6, 200, 400, 400, 1, 6, 1, 1), Err(ConfigError::RadiusTooLarge));
}

#[test]
fn config_rejects_bad_fraction() {
    assert_eq!(Config::new(6, 200, 401, 401, 1, 0, 1, 1), Err(ConfigError::FractionOutOfRange));
    assert_eq!(Config::new(6, 200, 401, 401, 7, 6, 1, 1), Err(ConfigError::FractionOutOfRange));
}

#[test]
fn config_rejects_zero_seed_tries() {
    assert_eq!(Config::new(6, 200, 401, 401, 1, 6, 1, 0), Err(ConfigError::ZeroSeedTries));
}

#[test]
fn chaos_step_interpolates_from_the_drawn_vertex() {
    let verts = vec![
        Point { x: 0, y: 0 },
        Point { x: 60 * SCALE, y: 30 * SCALE },
    ];
    let cur = Point { x: 6 * SCALE, y: 12 * SCALE };
    // A sixth of the way from vertex 0 toward the current point.
    assert_eq!(chaos_step(&verts, 0, cur, 1, 6), Point { x: SCALE, y: 2 * SCALE });
    // From vertex 1 the same draw lands elsewhere: the direction matters.
    assert_eq!(chaos_step(&verts, 1, cur, 1, 6), Point { x: 51 * SCALE, y: 27 * SCALE });
}

#[test]
fn acquired_seed_is_inside_the_polygon() {
    let (poly, _) = build_regular_polygon(6, 200, 200, 200);
    let p = acquire_seed(&poly, 401, 401, 100000).expect("a hexagon covers most of the canvas");
    assert!(poly.contains(p));
    assert!(p.x < 401 * SCALE && p.y < 401 * SCALE);
}

#[test]
fn hexagon_run_plots_points_inside_and_nowhere_else() {
    // The classic run: six sides, radius 200, a 401 by 401 canvas, a
    // fraction of one sixth, one hundred thousand points.
    let cfg = classic_config(6, 1, 6, 100000);
    let c = render(&cfg, white(), black()).unwrap();
    assert_eq!(c.width, 401);
    assert_eq!(c.height, 401);
    assert_eq!(c.pixels.len(), 401 * 401);
    let blacks = count_color(&c, black());
    let whites = count_color(&c, white());
    assert_eq!(blacks + whites, 401 * 401, "every pixel is background or plot color");
    assert!(blacks > 0, "some point near the interior was plotted");
    // The hexagon leaves the canvas corners uncovered.
    assert_eq!(c.get_pixel(0, 0), white());
    assert_eq!(c.get_pixel(400, 0), white());
    assert_eq!(c.get_pixel(0, 400), white());
    assert_eq!(c.get_pixel(400, 400), white());
}

#[test]
fn zero_iterations_leave_the_background_untouched() {
    let cfg = classic_config(6, 1, 6, 0);
    let c = render(&cfg, white(), black()).unwrap();
    assert_eq!(count_color(&c, white()), 401 * 401);
}

#[test]
fn triangle_run_draws_a_sparse_gasket() {
    // Three sides and a fraction of one half give the classic Sierpinski
    // point distribution: self-similar and sparse, not a filled triangle.
    let cfg = classic_config(3, 1, 2, 100000);
    let c = render(&cfg, white(), black()).unwrap();
    let blacks = count_color(&c, black());
    assert!(blacks > 500, "the attractor is visited, got {blacks} plotted pixels");
    assert!(
        blacks < 40000,
        "plotted points stay on the sparse attractor, got {blacks} plotted pixels"
    );
    // The open middle of the triangle is never visited: the centroid
    // pixel stays background.
    assert_eq!(c.get_pixel(200, 200), white());
}

#[test]
fn radius_of_half_the_canvas_never_plots_out_of_bounds() {
    // The largest radius the 401-pixel canvas admits: every vertex lands
    // between column 0 and column 400. An out-of-range plot would panic
    // the indexing below it, so a completed run with the full iteration
    // count exercises the boundary.
    let cfg = Config::new(6, 200, 401, 401, 1, 6, 100000, 100000).unwrap();
    let c = render(&cfg, white(), black()).unwrap();
    assert_eq!(c.pixels.len(), 401 * 401);
}
