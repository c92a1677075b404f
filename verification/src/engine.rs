//! The chaos-game engine: a validated configuration, seed acquisition by
//! rejection sampling, and the fixed-count iteration that plots one point
//! per step.
//!
//! Each step picks a random vertex `v` and replaces the current point `c`
//! by the point a fraction `frac_num / frac_den` of the way from `v` to
//! `c`. Randomness only chooses which orbit is walked; the contracts pin
//! everything that holds of every outcome: the final canvas is exactly
//! some chaos-game orbit plotted point by point (`is_orbit`, `plotted`),
//! every plotted pixel is on the canvas, and zero iterations leave the
//! canvas untouched.

use rand::Rng;
use vstd::prelude::*;

use crate::canvas::{Canvas, Color};
use crate::geometry::{lemma_lerp1_between, lerp1, Point, MAX_COORD, MAX_DIM, SCALE, TURN};
use crate::polygon::{build_regular_polygon, polygon_contains, regular_polygon_vertices, Polygon};

verus! {

/// The parameters of one chaos-game run. A value built by `Config::new`
/// always satisfies `valid`.
#[derive(Clone, Copy, PartialEq, Eq, Structural, Debug)]
pub struct Config {
    /// Number of polygon vertices.
    pub side_count: u32,
    /// Circumscribed-circle radius, in pixels.
    pub radius: u32,
    /// Canvas width, in pixels.
    pub width: u32,
    /// Canvas height, in pixels.
    pub height: u32,
    /// Numerator of the interpolation fraction.
    pub frac_num: u32,
    /// Denominator of the interpolation fraction.
    pub frac_den: u32,
    /// How many points the iteration phase plots.
    pub iterations: u32,
    /// How many random candidates seed acquisition may reject before
    /// giving up.
    pub seed_tries: u32,
}

/// Why a configuration was rejected.
#[derive(Clone, Copy, PartialEq, Eq, Structural, Debug)]
pub enum ConfigError {
    /// Fewer than three sides.
    TooFewSides,
    /// More sides than there are angle units in a turn.
    TooManySides,
    /// A radius of zero.
    ZeroRadius,
    /// A canvas with no pixels.
    CanvasEmpty,
    /// A canvas dimension beyond the supported maximum.
    CanvasTooLarge,
    /// A polygon that would not fit the canvas: the radius must keep every
    /// vertex between pixel zero and the last pixel column and row.
    RadiusTooLarge,
    /// A fraction that is not between zero and one.
    FractionOutOfRange,
    /// No seed attempts allowed.
    ZeroSeedTries,
}

/// Why a run produced no image.
#[derive(Clone, Copy, PartialEq, Eq, Structural, Debug)]
pub enum RenderError {
    /// Every random seed candidate fell outside the polygon.
    SeedNotFound,
}

impl Config {
    /// The x coordinate of the polygon center, in pixels.
    pub open spec fn center_x(self) -> int {
        (self.width as int) / 2
    }

    /// The y coordinate of the polygon center, in pixels.
    pub open spec fn center_y(self) -> int {
        (self.height as int) / 2
    }

    /// Geometry and iteration parameters that a run accepts: at least a
    /// triangle, a positive radius small enough that the whole polygon
    /// stays on the canvas, a fraction in `[0, 1]`, and at least one seed
    /// attempt.
    pub open spec fn valid(self) -> bool {
        &&& 3 <= self.side_count
        &&& self.side_count as int <= TURN as int
        &&& 1 <= self.radius
        &&& 1 <= self.width
        &&& self.width as int <= MAX_DIM as int
        &&& 1 <= self.height
        &&& self.height as int <= MAX_DIM as int
        &&& self.radius as int <= self.center_x()
        &&& self.radius as int <= self.center_y()
        &&& self.center_x() + self.radius as int <= self.width as int - 1
        &&& self.center_y() + self.radius as int <= self.height as int - 1
        &&& 1 <= self.frac_den
        &&& self.frac_num <= self.frac_den
        &&& 1 <= self.seed_tries
    }

    /// Validates the parameters of a run, reporting the first violated
    /// rule, and returns a configuration exactly when all rules hold.
    pub fn new(
        side_count: u32,
        radius: u32,
        width: u32,
        height: u32,
        frac_num: u32,
        frac_den: u32,
        iterations: u32,
        seed_tries: u32,
    ) -> (r: Result<Config, ConfigError>)
        ensures
            r is Ok <==> (Config {
                side_count,
                radius,
                width,
                height,
                frac_num,
                frac_den,
                iterations,
                seed_tries,
            }).valid(),
            r matches Ok(c) ==> c == (Config {
                side_count,
                radius,
                width,
                height,
                frac_num,
                frac_den,
                iterations,
                seed_tries,
            }) && c.valid(),
            r == Err::<Config, ConfigError>(ConfigError::TooFewSides) <==> side_count < 3,
            r == Err::<Config, ConfigError>(ConfigError::TooManySides) <==> (3 <= side_count
                && side_count as int > TURN as int),
            r == Err::<Config, ConfigError>(ConfigError::ZeroRadius) <==> (3 <= side_count
                && side_count as int <= TURN as int && radius == 0),
            r == Err::<Config, ConfigError>(ConfigError::CanvasEmpty) <==> (3 <= side_count
                && side_count as int <= TURN as int && 1 <= radius && (width == 0 || height
                == 0)),
            r == Err::<Config, ConfigError>(ConfigError::CanvasTooLarge) <==> (3 <= side_count
                && side_count as int <= TURN as int && 1 <= radius && 1 <= width && 1 <= height
                && (width as int > MAX_DIM as int || height as int > MAX_DIM as int)),
            r == Err::<Config, ConfigError>(ConfigError::RadiusTooLarge) <==> (3 <= side_count
                && side_count as int <= TURN as int && 1 <= radius && 1 <= width && width as int
                <= MAX_DIM as int && 1 <= height && height as int <= MAX_DIM as int && !(radius
                <= (width as int) / 2 && radius <= (height as int) / 2 && (width as int) / 2
                + radius <= width as int - 1 && (height as int) / 2 + radius <= height as int
                - 1)),
            r == Err::<Config, ConfigError>(ConfigError::FractionOutOfRange) <==> (3 <= side_count
                && side_count as int <= TURN as int && 1 <= radius && 1 <= width && width as int
                <= MAX_DIM as int && 1 <= height && height as int <= MAX_DIM as int && radius
                <= (width as int) / 2 && radius <= (height as int) / 2 && (width as int) / 2
                + radius <= width as int - 1 && (height as int) / 2 + radius <= height as int - 1
                && (frac_den == 0 || frac_num > frac_den)),
            r == Err::<Config, ConfigError>(ConfigError::ZeroSeedTries) <==> (3 <= side_count
                && side_count as int <= TURN as int && 1 <= radius && 1 <= width && width as int
                <= MAX_DIM as int && 1 <= height && height as int <= MAX_DIM as int && radius
                <= (width as int) / 2 && radius <= (height as int) / 2 && (width as int) / 2
                + radius <= width as int - 1 && (height as int) / 2 + radius <= height as int - 1
                && 1 <= frac_den && frac_num <= frac_den && seed_tries == 0),
    {
        if side_count < 3 {
            return Err(ConfigError::TooFewSides);
        }
        if (side_count as u64) > TURN {
            return Err(ConfigError::TooManySides);
        }
        if radius == 0 {
            return Err(ConfigError::ZeroRadius);
        }
        if width == 0 || height == 0 {
            return Err(ConfigError::CanvasEmpty);
        }
        if (width as u64) > MAX_DIM || (height as u64) > MAX_DIM {
            return Err(ConfigError::CanvasTooLarge);
        }
        if !(radius <= width / 2 && radius <= height / 2 && width / 2 + radius <= width - 1
            && height / 2 + radius <= height - 1) {
            return Err(ConfigError::RadiusTooLarge);
        }
        if frac_den == 0 || frac_num > frac_den {
            return Err(ConfigError::FractionOutOfRange);
        }
        if seed_tries == 0 {
            return Err(ConfigError::ZeroSeedTries);
        }
        Ok(Config { side_count, radius, width, height, frac_num, frac_den, iterations, seed_tries })
    }
}

/// Relies on `rand::thread_rng` and `rand::Rng::gen_range` over the range
/// `0..n`: returns a uniformly distributed value below `n`. Only the
/// bound holds of every outcome; two calls with the same argument may
/// differ.
#[verifier::external_body]
fn random_below(n: u64) -> (r: u64)
    requires
        1 <= n,
    ensures
        r < n,
{
    rand::thread_rng().gen_range(0..n)
}

/// Draws random whole-pixel points on the canvas until one lies inside
/// the polygon, rejecting at most `tries` candidates. A returned point is
/// always inside the polygon and on the canvas; `None` means every
/// candidate was rejected.
pub fn acquire_seed(poly: &Polygon, width: u32, height: u32, tries: u32) -> (r: Option<Point>)
    requires
        poly.wf(),
        1 <= width,
        width as int <= MAX_DIM as int,
        1 <= height,
        height as int <= MAX_DIM as int,
    ensures
        r matches Some(p) ==> polygon_contains(poly.vertices@, p) && p.x < width as int * SCALE
            && p.y < height as int * SCALE && p.x as int % (SCALE as int) == 0 && p.y as int % (
        SCALE as int) == 0,
{
    let mut t: u32 = 0;
    while t < tries
        invariant
            poly.wf(),
            1 <= width,
            width as int <= MAX_DIM as int,
            1 <= height,
            height as int <= MAX_DIM as int,
        decreases tries as int - t as int,
    {
        let rx: u64 = random_below(width as u64);
        let ry: u64 = random_below(height as u64);
        let p: Point = Point { x: rx * SCALE, y: ry * SCALE };
        if poly.contains(p) {
            return Some(p);
        }
        t = t + 1;
    }
    None
}

/// One chaos-game step never leaves the canvas: if the chosen vertex and
/// the current point both lie on a canvas of the given size, so does the
/// interpolated point, for any fraction in `[0, 1]`. Together with the
/// placement of every vertex inside the canvas this rules out any
/// out-of-bounds plot, however the random choices fall.
pub proof fn lemma_step_stays_on_canvas(v: Point, c: Point, num: int, den: int, w: int, h: int)
    requires
        0 <= num <= den,
        1 <= den,
        v.x < w * SCALE,
        v.y < h * SCALE,
        c.x < w * SCALE,
        c.y < h * SCALE,
    ensures
        0 <= lerp1(v.x as int, c.x as int, num, den) < w * SCALE,
        0 <= lerp1(v.y as int, c.y as int, num, den) < h * SCALE,
{
    lemma_lerp1_between(v.x as int, c.x as int, num, den);
    lemma_lerp1_between(v.y as int, c.y as int, num, den);
}

/// A point of the axis-aligned square of half-side `radius` around the
/// center of a valid configuration lies on the canvas; in particular a
/// radius of exactly half the nominal canvas size keeps every polygon
/// vertex plottable.
pub proof fn lemma_polygon_square_fits_canvas(cfg: Config, p: Point)
    requires
        cfg.valid(),
        (cfg.center_x() - cfg.radius) * SCALE <= p.x as int,
        p.x as int <= (cfg.center_x() + cfg.radius) * SCALE,
        (cfg.center_y() - cfg.radius) * SCALE <= p.y as int,
        p.y as int <= (cfg.center_y() + cfg.radius) * SCALE,
    ensures
        p.x < cfg.width as int * SCALE,
        p.y < cfg.height as int * SCALE,
{
    vstd::arithmetic::mul::lemma_mul_inequality(
        cfg.center_x() + cfg.radius, cfg.width as int - 1, SCALE as int);
    vstd::arithmetic::mul::lemma_mul_inequality(
        cfg.center_y() + cfg.radius, cfg.height as int - 1, SCALE as int);
    vstd::arithmetic::mul::lemma_mul_is_distributive_sub_other_way(
        SCALE as int, cfg.width as int, 1);
    vstd::arithmetic::mul::lemma_mul_is_distributive_sub_other_way(
        SCALE as int, cfg.height as int, 1);
    vstd::arithmetic::mul::lemma_mul_is_commutative(SCALE as int, cfg.width as int);
    vstd::arithmetic::mul::lemma_mul_is_commutative(SCALE as int, cfg.height as int);
    vstd::arithmetic::mul::lemma_mul_is_commutative(SCALE as int, cfg.width as int - 1);
    vstd::arithmetic::mul::lemma_mul_is_commutative(SCALE as int, cfg.height as int - 1);
}

/// One chaos-game step, as a function of the random draw: once the
/// random source has chosen vertex `idx`, the next point is the point a
/// fraction `frac_num / frac_den` of the way from that vertex toward the
/// current point — pinned exactly, for every value the draw can take.
pub fn chaos_step(
    vertices: &Vec<Point>,
    idx: usize,
    current: Point,
    frac_num: u32,
    frac_den: u32,
) -> (r: Point)
    requires
        idx < vertices@.len(),
        vertices@[idx as int].x as int <= MAX_COORD as int,
        vertices@[idx as int].y as int <= MAX_COORD as int,
        current.x as int <= MAX_COORD as int,
        current.y as int <= MAX_COORD as int,
        1 <= frac_den,
        frac_num <= frac_den,
    ensures
        r.x == lerp1(
            vertices@[idx as int].x as int,
            current.x as int,
            frac_num as int,
            frac_den as int,
        ),
        r.y == lerp1(
            vertices@[idx as int].y as int,
            current.y as int,
            frac_num as int,
            frac_den as int,
        ),
{
    let v: Point = vertices[idx];
    crate::geometry::point_on_fraction(v, current, frac_num, frac_den)
}

/// Whether `pts` is the orbit the chaos game walks when the random
/// source draws the vertex indices `idxs`: point `i` follows by one
/// interpolation step from vertex `idxs[i]` and the previous point (the
/// seed for the first step).
pub open spec fn is_orbit(
    vs: Seq<Point>,
    seed: Point,
    num: int,
    den: int,
    idxs: Seq<int>,
    pts: Seq<Point>,
) -> bool {
    &&& pts.len() == idxs.len()
    &&& forall|i: int|
        #![trigger idxs[i]]
        #![trigger pts[i]]
        0 <= i < pts.len() ==> 0 <= idxs[i] < vs.len() && pts[i].x == lerp1(
            vs[idxs[i]].x as int,
            (if i == 0 {
                seed
            } else {
                pts[i - 1]
            }).x as int,
            num,
            den,
        ) && pts[i].y == lerp1(
            vs[idxs[i]].y as int,
            (if i == 0 {
                seed
            } else {
                pts[i - 1]
            }).y as int,
            num,
            den,
        )
}

/// The row-major index of the pixel containing `p` on a canvas `w`
/// pixels wide.
pub open spec fn pixel_slot(w: int, p: Point) -> int {
    ((p.y as int) / (SCALE as int)) * w + (p.x as int) / (SCALE as int)
}

/// The canvas contents after plotting every point of `pts`, in order, in
/// the given color.
pub open spec fn plotted(s: Seq<Color>, w: int, pts: Seq<Point>, color: Color) -> Seq<Color>
    decreases pts.len(),
{
    if pts.len() == 0 {
        s
    } else {
        plotted(s, w, pts.drop_last(), color).update(pixel_slot(w, pts.last()), color)
    }
}

/// Runs the iteration phase: exactly `iterations` steps, each plotting
/// one point. The final canvas is exactly some chaos-game orbit of
/// length `iterations`, plotted point by point over the old contents; in
/// particular every pixel either keeps its previous color or holds the
/// plot color, and zero iterations change nothing. Which orbit it is the
/// random draws decide.
pub fn run_chaos_game(
    canvas: &mut Canvas,
    vertices: &Vec<Point>,
    seed: Point,
    frac_num: u32,
    frac_den: u32,
    iterations: u32,
    color: Color,
)
    requires
        old(canvas).wf(),
        vertices@.len() >= 1,
        forall|i: int| 0 <= i < vertices@.len() ==> old(canvas).covers(#[trigger] vertices@[i]),
        old(canvas).covers(seed),
        1 <= frac_den,
        frac_num <= frac_den,
    ensures
        final(canvas).wf(),
        final(canvas).width == old(canvas).width,
        final(canvas).height == old(canvas).height,
        forall|i: int|
            0 <= i < final(canvas).pixels@.len() ==> final(canvas).pixels@[i] == old(
                canvas,
            ).pixels@[i] || final(canvas).pixels@[i] == color,
        iterations == 0 ==> final(canvas).pixels@ == old(canvas).pixels@,
        exists|idxs: Seq<int>, pts: Seq<Point>|
            is_orbit(vertices@, seed, frac_num as int, frac_den as int, idxs, pts) && pts.len()
                == iterations && final(canvas).pixels@ == plotted(
                old(canvas).pixels@,
                old(canvas).width as int,
                pts,
                color,
            ),
{
    let n: usize = vertices.len();
    let mut current: Point = seed;
    let mut it: u32 = 0;
    let ghost mut idxs: Seq<int> = Seq::empty();
    let ghost mut pts: Seq<Point> = Seq::empty();
    while it < iterations
        invariant
            canvas.wf(),
            canvas.width == old(canvas).width,
            canvas.height == old(canvas).height,
            canvas.pixels@.len() == old(canvas).pixels@.len(),
            n == vertices@.len(),
            n >= 1,
            forall|i: int| 0 <= i < vertices@.len() ==> old(canvas).covers(#[trigger] vertices@[i]),
            old(canvas).covers(current),
            old(canvas).covers(seed),
            1 <= frac_den,
            frac_num <= frac_den,
            forall|i: int|
                0 <= i < canvas.pixels@.len() ==> canvas.pixels@[i] == old(canvas).pixels@[i]
                    || canvas.pixels@[i] == color,
            is_orbit(vertices@, seed, frac_num as int, frac_den as int, idxs, pts),
            it <= iterations,
            pts.len() == it,
            it == 0 ==> current == seed,
            it > 0 ==> current == pts[it - 1],
            canvas.pixels@ == plotted(
                old(canvas).pixels@,
                old(canvas).width as int,
                pts,
                color,
            ),
        decreases iterations as int - it as int,
    {
        let idx: u64 = random_below(n as u64);
        proof {
            lemma_step_stays_on_canvas(
                vertices@[idx as int],
                current,
                frac_num as int,
                frac_den as int,
                old(canvas).width as int,
                old(canvas).height as int,
            );
        }
        let next: Point = chaos_step(vertices, idx as usize, current, frac_num, frac_den);
        let ghost prev = canvas.pixels@;
        canvas.plot(next, color);
        proof {
            assert forall|i: int|
                0 <= i < canvas.pixels@.len() implies canvas.pixels@[i] == old(
                canvas,
            ).pixels@[i] || canvas.pixels@[i] == color by {
                if canvas.pixels@[i] != color {
                    assert(canvas.pixels@[i] == prev[i]);
                }
            }
            let idxs2 = idxs.push(idx as int);
            let pts2 = pts.push(next);
            assert(pts2.drop_last() =~= pts);
            assert(is_orbit(vertices@, seed, frac_num as int, frac_den as int, idxs2, pts2));
            assert(canvas.pixels@ == plotted(
                old(canvas).pixels@,
                old(canvas).width as int,
                pts2,
                color,
            ));
            idxs = idxs2;
            pts = pts2;
        }
        current = next;
        it = it + 1;
    }
    proof {
        assert(is_orbit(vertices@, seed, frac_num as int, frac_den as int, idxs, pts)
            && pts.len() == iterations && canvas.pixels@ == plotted(
            old(canvas).pixels@,
            old(canvas).width as int,
            pts,
            color,
        ));
        if iterations == 0 {
            assert(canvas.pixels@ == old(canvas).pixels@);
        }
    }
}

/// The polygon a configuration describes: the regular `side_count`-gon
/// of the configured radius around the canvas center.
pub open spec fn config_vertices(cfg: Config) -> Seq<Point> {
    regular_polygon_vertices(
        cfg.side_count as int,
        cfg.radius as int,
        cfg.center_x(),
        cfg.center_y(),
    )
}

/// A full run: builds the polygon at the canvas center, paints the
/// background, acquires a seed inside the polygon by rejection sampling,
/// then iterates. On success the canvas is exactly some chaos-game orbit
/// of the configured polygon, started from a seed inside it and plotted
/// point by point in the foreground color over an all-background canvas;
/// in particular every pixel is either background or foreground, and zero
/// iterations give a canvas that is background everywhere. The error
/// comes exactly when every random seed candidate was rejected.
pub fn render(cfg: &Config, background: Color, foreground: Color) -> (r: Result<
    Canvas,
    RenderError,
>)
    requires
        cfg.valid(),
    ensures
        r matches Ok(c) ==> c.wf() && c.width == cfg.width && c.height == cfg.height && (forall|
            i: int,
        |
            0 <= i < c.pixels@.len() ==> c.pixels@[i] == background || c.pixels@[i] == foreground)
            && (cfg.iterations == 0 ==> forall|i: int|
            0 <= i < c.pixels@.len() ==> c.pixels@[i] == background),
        r matches Ok(c) ==> exists|seed: Point, idxs: Seq<int>, pts: Seq<Point>|
            polygon_contains(config_vertices(*cfg), seed) && is_orbit(
                config_vertices(*cfg),
                seed,
                cfg.frac_num as int,
                cfg.frac_den as int,
                idxs,
                pts,
            ) && pts.len() == cfg.iterations && c.pixels@ == plotted(
                Seq::new((cfg.width * cfg.height) as nat, |i: int| background),
                cfg.width as int,
                pts,
                foreground,
            ),
        r matches Err(e) ==> e == RenderError::SeedNotFound,
{
    let cx: u32 = cfg.width / 2;
    let cy: u32 = cfg.height / 2;
    let (poly, verts) = build_regular_polygon(cfg.side_count, cfg.radius, cx, cy);
    let mut canvas = Canvas::new(cfg.width, cfg.height, background);
    let ghost bg0 = canvas.pixels@;
    let seed: Point = match acquire_seed(&poly, cfg.width, cfg.height, cfg.seed_tries) {
        Some(p) => p,
        None => {
            return Err(RenderError::SeedNotFound);
        },
    };
    proof {
        assert forall|i: int| 0 <= i < verts@.len() implies canvas.covers(
            #[trigger] verts@[i],
        ) by {
            lemma_polygon_square_fits_canvas(*cfg, verts@[i]);
        }
    }
    run_chaos_game(
        &mut canvas,
        &verts,
        seed,
        cfg.frac_num,
        cfg.frac_den,
        cfg.iterations,
        foreground,
    );
    proof {
        let (idxs, pts) = choose|idxs: Seq<int>, pts: Seq<Point>|
            is_orbit(verts@, seed, cfg.frac_num as int, cfg.frac_den as int, idxs, pts)
                && pts.len() == cfg.iterations && canvas.pixels@ == plotted(
                bg0,
                cfg.width as int,
                pts,
                foreground,
            );
        assert(bg0 =~= Seq::new((cfg.width * cfg.height) as nat, |i: int| background));
        assert(verts@ == config_vertices(*cfg));
        assert(polygon_contains(config_vertices(*cfg), seed) && is_orbit(
            config_vertices(*cfg),
            seed,
            cfg.frac_num as int,
            cfg.frac_den as int,
            idxs,
            pts,
        ) && pts.len() == cfg.iterations && canvas.pixels@ == plotted(
            Seq::new((cfg.width * cfg.height) as nat, |i: int| background),
            cfg.width as int,
            pts,
            foreground,
        ));
    }
    Ok(canvas)
}

} // verus!
