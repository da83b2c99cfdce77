//! The demonstration scenes: what the world holds, where the camera stands,
//! and how large the image is. Lengths, colours and coefficients are exact
//! decimals held in thousandths (1500 stands for 1.5); materials sit in a
//! table that spheres refer to by index, so that one material may be shared.
use vstd::prelude::*;

verus! {

/// Width in pixels of the demonstration images.
pub const WIDTH: usize = 256;

/// Rays traced per pixel, each with its own jitter inside the pixel.
pub const SAMPLES_PER_PIXEL: usize = 50;

/// Surface interactions traced per ray before it counts as black.
pub const MAX_RAY_BOUNCE_DEPTH: usize = 50;

/// How far the jittered spheres of the random field reach from the origin,
/// in whole units along `x` and along `z`.
pub const FIELD_SPAN: i64 = 11;

/// A point, direction or colour, each component in thousandths.
#[derive(Clone, Copy, Debug, PartialEq, Eq, Structural)]
pub struct Point {
    pub x: i64,
    pub y: i64,
    pub z: i64,
}

/// A material, its parameters in thousandths.
#[derive(Clone, Copy, Debug, PartialEq, Eq, Structural)]
pub enum Surface {
    Lambertian { albedo: Point },
    Metal { albedo: Point, fuzz: i64 },
    Dielectric { index: i64 },
}

/// A sphere: centre and radius in thousandths (a negative radius turns the
/// normals inwards), and the index of its material.
#[derive(Clone, Copy, Debug, PartialEq, Eq, Structural)]
pub struct Ball {
    pub center: Point,
    pub radius: i64,
    pub surface: usize,
}

/// Where the camera focuses.
#[derive(Clone, Copy, Debug, PartialEq, Eq, Structural)]
pub enum Focus {
    /// On the point looked at.
    OnTarget,
    /// At this distance, in thousandths.
    At(i64),
}

/// The camera's placement and lens, in thousandths; the field of view is
/// vertical, in thousandths of a degree; the aspect ratio is
/// `aspect_width / aspect_height`.
#[derive(Clone, Copy, Debug, PartialEq, Eq, Structural)]
pub struct CameraSetup {
    pub lookfrom: Point,
    pub lookat: Point,
    pub view_up: Point,
    pub field_of_view: i64,
    pub focal_length: i64,
    pub aspect_width: usize,
    pub aspect_height: usize,
    pub aperture: i64,
    pub focus: Focus,
}

/// A scene to render. With `random_field` the world also holds the
/// jittered small spheres on the grid of `FIELD_SPAN`.
pub struct Scene {
    pub width: usize,
    pub height: usize,
    pub camera: CameraSetup,
    pub surfaces: Vec<Surface>,
    pub balls: Vec<Ball>,
    pub random_field: bool,
}

impl Scene {
    /// Every sphere names a material of the table.
    pub open spec fn wf(&self) -> bool {
        forall|i: int| 0 <= i < self.balls@.len() ==> #[trigger] self.balls@[i].surface < self.surfaces@.len()
    }
}

/// The height of an image `width` pixels wide with the aspect ratio
/// `aspect_width / aspect_height`, rounded down.
pub fn image_height(width: usize, aspect_width: usize, aspect_height: usize) -> (r: usize)
    requires
        aspect_width > 0,
        width * aspect_height <= usize::MAX,
    ensures
        r == (width * aspect_height) / aspect_width as int,
{
    width * aspect_height / aspect_width
}

/// The grid cells `(a, b)` of the random field, `a` outer and `b` inner,
/// each running from `-FIELD_SPAN` to `FIELD_SPAN`.
pub open spec fn field_cell(i: int) -> (i64, i64) {
    let side = 2 * FIELD_SPAN + 1;
    ((i / side - FIELD_SPAN) as i64, (i % side - FIELD_SPAN) as i64)
}

/// The cells of the random field in the order their spheres are placed.
pub fn field_cells() -> (r: Vec<(i64, i64)>)
    ensures
        r@.len() == (2 * FIELD_SPAN + 1) * (2 * FIELD_SPAN + 1),
        forall|i: int| 0 <= i < r@.len() ==> #[trigger] r@[i] == field_cell(i),
{
    let mut cells: Vec<(i64, i64)> = Vec::new();
    let mut a: i64 = -FIELD_SPAN;
    while a <= FIELD_SPAN
        invariant
            -FIELD_SPAN <= a <= FIELD_SPAN + 1,
            cells@.len() == (a + FIELD_SPAN) * (2 * FIELD_SPAN + 1),
            forall|i: int| 0 <= i < cells@.len() ==> #[trigger] cells@[i] == field_cell(i),
        decreases FIELD_SPAN + 1 - a,
    {
        let mut b: i64 = -FIELD_SPAN;
        while b <= FIELD_SPAN
            invariant
                -FIELD_SPAN <= a <= FIELD_SPAN,
                -FIELD_SPAN <= b <= FIELD_SPAN + 1,
                cells@.len() == (a + FIELD_SPAN) * (2 * FIELD_SPAN + 1) + (b + FIELD_SPAN),
                forall|i: int| 0 <= i < cells@.len() ==> #[trigger] cells@[i] == field_cell(i),
            decreases FIELD_SPAN + 1 - b,
        {
            proof {
                let i = cells@.len() as int;
                assert(i / 23 == a + 11 && i % 23 == b + 11) by (nonlinear_arith)
                    requires
                        i == (a + 11) * 23 + (b + 11),
                        0 <= b + 11 < 23,
                        0 <= a + 11,
                ;
            }
            cells.push((a, b));
            b = b + 1;
        }
        assert((a + FIELD_SPAN) * (2 * FIELD_SPAN + 1) + (b + FIELD_SPAN) == (a + 1 + FIELD_SPAN) * (2
            * FIELD_SPAN + 1)) by (nonlinear_arith)
            requires
                b == FIELD_SPAN + 1,
        ;
        a = a + 1;
    }
    cells
}

/// The point with components `x`, `y`, `z` in thousandths.
pub open spec fn pt(x: int, y: int, z: int) -> Point {
    Point { x: x as i64, y: y as i64, z: z as i64 }
}

fn point(x: i64, y: i64, z: i64) -> (r: Point)
    ensures
        r == pt(x as int, y as int, z as int),
{
    Point { x, y, z }
}

/// The view of both demonstration cameras: 16:9, a 20 degree field of view,
/// looking at `lookat` from `lookfrom` with `y` up.
pub open spec fn demo_camera(lookfrom: Point, lookat: Point, aperture: int, focus: Focus) -> CameraSetup {
    CameraSetup {
        lookfrom,
        lookat,
        view_up: pt(0, 1000, 0),
        field_of_view: 20000,
        focal_length: 1000,
        aspect_width: 16,
        aspect_height: 9,
        aperture: aperture as i64,
        focus,
    }
}

fn make_demo_camera(lookfrom: Point, lookat: Point, aperture: i64, focus: Focus) -> (r: CameraSetup)
    ensures
        r == demo_camera(lookfrom, lookat, aperture as int, focus),
{
    CameraSetup {
        lookfrom,
        lookat,
        view_up: point(0, 1000, 0),
        field_of_view: 20000,
        focal_length: 1000,
        aspect_width: 16,
        aspect_height: 9,
        aperture,
        focus,
    }
}

pub open spec fn a_surfaces() -> Seq<Surface> {
    seq![
        Surface::Lambertian { albedo: pt(800, 800, 0) },
        Surface::Lambertian { albedo: pt(100, 200, 500) },
        Surface::Dielectric { index: 1100 },
        Surface::Metal { albedo: pt(800, 600, 200), fuzz: 0 },
    ]
}

pub open spec fn a_balls() -> Seq<Ball> {
    seq![
        Ball { center: pt(0, -100500, -1000), radius: 100000, surface: 0 },
        Ball { center: pt(0, 0, -1000), radius: 500, surface: 1 },
        Ball { center: pt(-1000, 0, -1000), radius: -450i64, surface: 2 },
        Ball { center: pt(1000, 0, -1000), radius: 500, surface: 3 },
    ]
}

/// A ground plane, a matte sphere flanked by a hollow glass shell and a
/// mirror, seen from above and to the side through a wide-open lens
/// focused on the matte sphere.
pub fn a() -> (r: Scene)
    ensures
        r.wf(),
        r.width == WIDTH,
        r.height == 144,
        r.camera == demo_camera(pt(3000, 3000, 2000), pt(0, 0, -1000), 1000, Focus::OnTarget),
        r.surfaces@ == a_surfaces(),
        r.balls@ == a_balls(),
        !r.random_field,
{
    let mut surfaces: Vec<Surface> = Vec::new();
    surfaces.push(Surface::Lambertian { albedo: point(800, 800, 0) });
    surfaces.push(Surface::Lambertian { albedo: point(100, 200, 500) });
    surfaces.push(Surface::Dielectric { index: 1100 });
    surfaces.push(Surface::Metal { albedo: point(800, 600, 200), fuzz: 0 });
    let mut balls: Vec<Ball> = Vec::new();
    balls.push(Ball { center: point(0, -100500, -1000), radius: 100000, surface: 0 });
    balls.push(Ball { center: point(0, 0, -1000), radius: 500, surface: 1 });
    balls.push(Ball { center: point(-1000, 0, -1000), radius: -450, surface: 2 });
    balls.push(Ball { center: point(1000, 0, -1000), radius: 500, surface: 3 });
    let camera = make_demo_camera(point(3000, 3000, 2000), point(0, 0, -1000), 1000, Focus::OnTarget);
    let height = image_height(WIDTH, 16, 9);
    assert(surfaces@ =~= a_surfaces());
    assert(balls@ =~= a_balls());
    Scene { width: WIDTH, height, camera, surfaces, balls, random_field: false }
}

pub open spec fn c_surfaces() -> Seq<Surface> {
    seq![
        Surface::Lambertian { albedo: pt(500, 500, 500) },
        Surface::Dielectric { index: 1500 },
        Surface::Lambertian { albedo: pt(400, 200, 100) },
        Surface::Metal { albedo: pt(700, 600, 500), fuzz: 0 },
    ]
}

pub open spec fn c_balls() -> Seq<Ball> {
    seq![
        Ball { center: pt(0, -1000000, 0), radius: 1000000, surface: 0 },
        Ball { center: pt(0, 1000, 0), radius: 1000, surface: 1 },
        Ball { center: pt(-4000, 1000, 0), radius: 1000, surface: 2 },
        Ball { center: pt(4000, 1000, 0), radius: 1000, surface: 3 },
    ]
}

/// A huge ground sphere under a field of small random spheres and three
/// large ones (glass, matte, mirror), seen from afar through a narrow lens
/// focused ten units out.
pub fn c() -> (r: Scene)
    ensures
        r.wf(),
        r.width == WIDTH,
        r.height == 144,
        r.camera == demo_camera(pt(13000, 2000, 3000), pt(0, 0, 0), 100, Focus::At(10000)),
        r.surfaces@ == c_surfaces(),
        r.balls@ == c_balls(),
        r.random_field,
{
    let mut surfaces: Vec<Surface> = Vec::new();
    surfaces.push(Surface::Lambertian { albedo: point(500, 500, 500) });
    surfaces.push(Surface::Dielectric { index: 1500 });
    surfaces.push(Surface::Lambertian { albedo: point(400, 200, 100) });
    surfaces.push(Surface::Metal { albedo: point(700, 600, 500), fuzz: 0 });
    let mut balls: Vec<Ball> = Vec::new();
    balls.push(Ball { center: point(0, -1000000, 0), radius: 1000000, surface: 0 });
    balls.push(Ball { center: point(0, 1000, 0), radius: 1000, surface: 1 });
    balls.push(Ball { center: point(-4000, 1000, 0), radius: 1000, surface: 2 });
    balls.push(Ball { center: point(4000, 1000, 0), radius: 1000, surface: 3 });
    let camera = make_demo_camera(point(13000, 2000, 3000), point(0, 0, 0), 100, Focus::At(10000));
    let height = image_height(WIDTH, 16, 9);
    assert(surfaces@ =~= c_surfaces());
    assert(balls@ =~= c_balls());
    Scene { width: WIDTH, height, camera, surfaces, balls, random_field: true }
}

} // verus!
