//! The camera, the steps of the path integrator, and the render sweep.
//!
//! The integrator follows a ray from bounce to bounce. Between two of its
//! decisions lies work on real numbers that the caller does: the geometry of
//! the next ray, and the colour that a finished path brings back. So the
//! integrator is a step, [`Renderer::ray_color`], and the render a sweep over
//! the pixels, [`Sweep`], into which the caller puts each finished pixel.

use vstd::prelude::*;
use vstd::arithmetic::div_mod::lemma_div_is_ordered;
use vstd::arithmetic::div_mod::lemma_div_multiples_vanish;
use vstd::arithmetic::div_mod::lemma_fundamental_div_mod;
use crate::image::Color;
use crate::object::Crossing;
use crate::object::Hit;
use crate::material::Outgoing;
use crate::material::Sample;
use crate::object::World;
use crate::raster::Picture;
use crate::scalar::Interval;
use crate::scalar::Scalar;
use crate::scalar::INFINITY;
use crate::scalar::NEAREST;
use crate::scalar::ONE;
use crate::vector::Quaternion;
use crate::vector::Vector;

verus! {

/// Where the camera stands, how it looks, and what it makes.
#[derive(Clone, Copy, Debug, PartialEq, Eq, Structural)]
pub struct Camera {
    pub image_width: u32,
    pub image_height: u32,
    pub position: Vector,
    pub rotation: Quaternion,
    /// The vertical field of view, in degrees.
    pub fov: Scalar,
    pub focus_distance: Scalar,
    /// The angle of the cone of rays through one point in focus, in degrees.
    pub defocus_angle: Scalar,
    pub background_color: Vector,
    pub samples_per_pixel: u32,
    /// The number of bounces after which a path is given up.
    pub max_depth: u32,
}

/// The pattern of one hundred and eighty: a field of view must stay below it.
pub const HALF_TURN: u64 = 0x4066_8000_0000_0000;

impl Camera {
    /// Whether the camera can make an image: the field of view lies above
    /// zero and below one hundred and eighty degrees, and the focus distance
    /// above zero.
    pub open spec fn valid(self) -> bool {
        &&& (Scalar { bits: 0 }).less(self.fov)
        &&& self.fov.less(Scalar { bits: HALF_TURN })
        &&& (Scalar { bits: 0 }).less(self.focus_distance)
    }

    /// Tests whether the camera can make an image.
    pub fn is_valid(&self) -> (valid: bool)
        ensures
            valid == self.valid(),
    {
        Scalar::zero().lt(&self.fov) && self.fov.lt(&Scalar::from_bits(HALF_TURN))
            && Scalar::zero().lt(&self.focus_distance)
    }
}

impl Default for Camera {
    /// A camera at the origin that turns nothing and makes no image.
    fn default() -> (camera: Camera)
        ensures
            camera == (Camera {
                image_width: 0,
                image_height: 0,
                position: Vector {
                    x: Scalar { bits: 0 },
                    y: Scalar { bits: 0 },
                    z: Scalar { bits: 0 },
                },
                rotation: Quaternion {
                    i: Scalar { bits: 0 },
                    j: Scalar { bits: 0 },
                    k: Scalar { bits: 0 },
                    w: Scalar { bits: ONE },
                },
                fov: Scalar { bits: 0 },
                focus_distance: Scalar { bits: 0 },
                defocus_angle: Scalar { bits: 0 },
                background_color: Vector {
                    x: Scalar { bits: 0 },
                    y: Scalar { bits: 0 },
                    z: Scalar { bits: 0 },
                },
                samples_per_pixel: 0,
                max_depth: 0,
            }),
    {
        Camera {
            image_width: 0,
            image_height: 0,
            position: Vector::zeros(),
            rotation: Quaternion::identity(),
            fov: Scalar::zero(),
            focus_distance: Scalar::zero(),
            defocus_angle: Scalar::zero(),
            background_color: Vector::zeros(),
            samples_per_pixel: 0,
            max_depth: 0,
        }
    }
}

/// What the integrator finds at the end of a ray.
#[derive(Clone, Copy, Debug, PartialEq, Eq, Structural)]
pub enum Probe {
    /// The path has no bounce left: it brings back black.
    Spent,
    /// The ray leaves the scene: it brings back the background.
    Sky,
    /// The ray hits a surface. What the surface scatters is followed with
    /// `depth` bounces left; what it does not scatter is black.
    Struck { hit: Hit, depth: u32 },
}

/// What becomes of a ray at a hit.
#[derive(Clone, Copy, Debug, PartialEq, Eq, Structural)]
pub enum Bounce {
    /// The surface scatters nothing: the path brings back black.
    Absorbed,
    /// The surface scatters the ray: the path brings back, colour by colour,
    /// `attenuation` times what the scattered ray brings back. The scattered
    /// ray leaves from `origin`, the point of the hit.
    Scattered { attenuation: Vector, origin: Vector, outgoing: Outgoing },
}

/// The range of distances at which the integrator looks for a hit: from
/// [`NEAREST`], so that a ray does not hit the surface it has just left, and
/// without end.
pub open spec fn reach() -> Interval {
    Interval { min: Scalar { bits: NEAREST }, max: Scalar { bits: INFINITY } }
}

/// The settings of one render.
#[derive(Clone, Copy, Debug, PartialEq, Eq, Structural)]
pub struct Renderer {
    samples_per_pixel: u32,
    max_ray_bounces: u32,
    /// In pixels.
    image_width: u32,
    /// In pixels.
    image_height: u32,
    defocus_angle: Scalar,
}

/// What a renderer keeps of its camera.
pub struct Settings {
    pub image_width: u32,
    pub image_height: u32,
    pub samples_per_pixel: u32,
    pub max_ray_bounces: u32,
    pub defocus_angle: Scalar,
}

impl Renderer {
    /// What the renderer keeps of its camera.
    pub closed spec fn settings(&self) -> Settings {
        Settings {
            image_width: self.image_width,
            image_height: self.image_height,
            samples_per_pixel: self.samples_per_pixel,
            max_ray_bounces: self.max_ray_bounces,
            defocus_angle: self.defocus_angle,
        }
    }

    /// Whether `probe` is what a ray with `depth` bounces left finds in the
    /// world: nothing more where no bounce is left; else the background where
    /// the ray hits nothing from [`NEAREST`] on, and else its nearest hit,
    /// to be followed with one bounce less.
    pub open spec fn probed(world: &World, crossings: Seq<Crossing>, depth: u32, probe: Probe) -> bool {
        match probe {
            Probe::Spent => depth == 0,
            Probe::Sky => depth > 0 && world.nearest(crossings, reach(), None),
            Probe::Struck { hit, depth: left } => depth > 0 && left == depth - 1 && world.nearest(
                crossings,
                reach(),
                Some(hit),
            ),
        }
    }

    /// The renderer for a camera.
    pub fn new(camera: Camera) -> (renderer: Renderer)
        ensures
            renderer.settings() == (Settings {
                image_width: camera.image_width,
                image_height: camera.image_height,
                samples_per_pixel: camera.samples_per_pixel,
                max_ray_bounces: camera.max_depth,
                defocus_angle: camera.defocus_angle,
            }),
    {
        Renderer {
            samples_per_pixel: camera.samples_per_pixel,
            max_ray_bounces: camera.max_depth,
            image_width: camera.image_width,
            image_height: camera.image_height,
            defocus_angle: camera.defocus_angle,
        }
    }

    /// The width of the image, in pixels.
    pub fn image_width(&self) -> (width: u32)
        ensures
            width == self.settings().image_width,
    {
        self.image_width
    }

    /// The height of the image, in pixels.
    pub fn image_height(&self) -> (height: u32)
        ensures
            height == self.settings().image_height,
    {
        self.image_height
    }

    /// The number of paths followed for each pixel.
    pub fn samples_per_pixel(&self) -> (samples: u32)
        ensures
            samples == self.settings().samples_per_pixel,
    {
        self.samples_per_pixel
    }

    /// The number of bounces after which a path is given up.
    pub fn max_ray_bounces(&self) -> (bounces: u32)
        ensures
            bounces == self.settings().max_ray_bounces,
    {
        self.max_ray_bounces
    }

    /// Whether rays start on the defocus disk and not at the camera itself:
    /// they do unless the defocus angle is at most zero.
    pub fn defocused(&self) -> (disk: bool)
        ensures
            disk == !self.settings().defocus_angle.at_most(Scalar { bits: 0 }),
    {
        !self.defocus_angle.le(&Scalar::zero())
    }

    /// One step of the integrator: what a ray with `depth` bounces left finds
    /// in the world.
    pub fn ray_color(&self, world: &World, crossings: &Vec<Crossing>, depth: u32) -> (probe:
        Probe)
        requires
            world.fits(crossings@),
        ensures
            Renderer::probed(world, crossings@, depth, probe),
            world.wf() && probe is Struck ==> probe->hit.material < world.materials@.len(),
    {
        if depth == 0 {
            return Probe::Spent;
        }
        if let Some(hit) = world.hit(crossings, Scalar::from_bits(NEAREST), Scalar::infinity()) {
            proof {
                let j = choose|j: int| #[trigger]
                    world.first_struck(crossings@, reach(), world.objects@.len() as int, j)
                        && world.solo(crossings@, reach(), j) == Some(hit);
                assert(world.wf() ==> world.objects@[j].defect(world.materials@.len() as int)
                    is None);
            }
            return Probe::Struck { hit, depth: depth - 1 };
        }
        Probe::Sky
    }

    /// The other step of the integrator: what the material of a hit makes of
    /// the ray.
    pub fn bounce(&self, world: &World, hit: &Hit, sample: &Sample) -> (bounce: Bounce)
        requires
            hit.material < world.materials@.len(),
        ensures
            bounce == match world.materials@[hit.material as int].scattered(*hit, *sample) {
                None => Bounce::Absorbed,
                Some(scatter) => Bounce::Scattered {
                    attenuation: scatter.attenuation,
                    origin: hit.p,
                    outgoing: scatter.outgoing,
                },
            },
    {
        match world.materials[hit.material].scatter(hit, sample) {
            None => Bounce::Absorbed,
            Some(scatter) => Bounce::Scattered {
                attenuation: scatter.attenuation,
                origin: hit.p,
                outgoing: scatter.outgoing,
            },
        }
    }

    /// Begins a render: a sweep over a black picture of the renderer's size.
    pub fn render(&self) -> (sweep: Sweep)
        requires
            self.settings().image_width * self.settings().image_height <= u32::MAX,
            Picture::fits(self.settings().image_width, self.settings().image_height),
        ensures
            sweep.wf(),
            sweep.width() == self.settings().image_width,
            sweep.height() == self.settings().image_height,
            sweep.total() == sweep.width() * sweep.height(),
            sweep.completed() == 0,
            sweep.given_out() == Seq::<nat>::empty(),
            sweep.canvas() == Seq::new(sweep.total(), |i: int| Color { r: 0, g: 0, b: 0 }),
    {
        let image = Picture::new(self.image_width, self.image_height);
        let total: u32 = self.image_width * self.image_height;
        Sweep {
            image,
            width: self.image_width,
            height: self.image_height,
            total,
            completed: 0,
            progress: 0,
        }
    }
}

/// A ray with a bounce left that hits nothing brings back the background, and
/// nothing else: what it finds does not depend on the bounces that are left.
pub proof fn lemma_miss_is_sky(world: &World, crossings: Seq<Crossing>, depth: u32, probe: Probe)
    requires
        depth > 0,
        crossings.len() == world.objects@.len(),
        forall|i: int|
            0 <= i < crossings.len() ==> (#[trigger] world.solo(crossings, reach(), i)) is None,
        Renderer::probed(world, crossings, depth, probe),
    ensures
        probe == Probe::Sky,
{
    if let Probe::Struck { hit, depth: left } = probe {
        let j = choose|j: int| #[trigger]
            world.first_struck(crossings, reach(), world.objects@.len() as int, j) && world.solo(
                crossings,
                reach(),
                j,
            ) == Some(hit);
    }
}

/// A path ends at a light: a light scatters nothing, so what it gives off is
/// not brought back along the path.
pub proof fn lemma_light_ends_the_path(material: crate::material::Material, hit: Hit, sample: Sample)
    requires
        material is Light,
    ensures
        material.scattered(hit, sample) is None,
{
}

/// In a world without primitives every ray with a bounce left brings back the
/// background.
pub proof fn lemma_empty_world_is_sky(
    world: &World,
    crossings: Seq<Crossing>,
    depth: u32,
    probe: Probe,
)
    requires
        depth > 0,
        world.objects@.len() == 0,
        crossings.len() == 0,
        Renderer::probed(world, crossings, depth, probe),
    ensures
        probe == Probe::Sky,
{
    lemma_miss_is_sky(world, crossings, depth, probe);
}

/// What a ray finds is one thing only: two outcomes of one step are the
/// same.
pub proof fn lemma_probe_is_settled(
    world: &World,
    crossings: Seq<Crossing>,
    depth: u32,
    first: Probe,
    second: Probe,
)
    requires
        crossings.len() == world.objects@.len(),
        Renderer::probed(world, crossings, depth, first),
        Renderer::probed(world, crossings, depth, second),
    ensures
        first == second,
{
    match (first, second) {
        (Probe::Struck { hit: a, depth: x }, Probe::Struck { hit: b, depth: y }) => {
            crate::object::lemma_nearest_is_settled(world, crossings, reach(), Some(a), Some(b));
        },
        (Probe::Struck { hit, depth: x }, Probe::Sky) => {
            crate::object::lemma_nearest_is_settled(world, crossings, reach(), Some(hit), None);
        },
        (Probe::Sky, Probe::Struck { hit, depth: x }) => {
            crate::object::lemma_nearest_is_settled(world, crossings, reach(), None, Some(hit));
        },
        _ => {},
    }
}

/// The whole percent of `total` pixels that `completed` of them are.
pub open spec fn percent(completed: nat, total: nat) -> nat {
    completed * 100 / total
}

/// The progress values that a render of `total` pixels gives out while its
/// first `n` pixels are put: after each pixel the percent, where it has grown.
pub open spec fn emissions(total: nat, n: nat) -> Seq<nat>
    decreases n,
{
    if n == 0 {
        Seq::empty()
    } else {
        let before = emissions(total, (n - 1) as nat);
        if percent(n, total) > percent((n - 1) as nat, total) {
            before.push(percent(n, total))
        } else {
            before
        }
    }
}

/// A render under way: the picture so far, and how far the sweep has come.
/// The pixels are put in order, row after row from the top.
pub struct Sweep {
    image: Picture,
    width: u32,
    height: u32,
    total: u32,
    completed: u32,
    progress: u32,
}

impl Sweep {
    /// The pixels of the picture so far.
    pub closed spec fn canvas(&self) -> Seq<Color> {
        self.image.colors()
    }

    /// The width of the image, in pixels.
    pub closed spec fn width(&self) -> nat {
        self.width as nat
    }

    /// The height of the image, in pixels.
    pub closed spec fn height(&self) -> nat {
        self.height as nat
    }

    /// The number of pixels of the image: its width times its height.
    pub closed spec fn total(&self) -> nat {
        self.total as nat
    }

    /// The number of pixels put so far.
    pub closed spec fn completed(&self) -> nat {
        self.completed as nat
    }

    /// The progress values given out so far, in their order.
    pub open spec fn given_out(&self) -> Seq<nat> {
        emissions(self.total(), self.completed())
    }

    /// The sweep's invariant: the image has the sweep's size, no more pixels
    /// are put than it has, and the progress is the percent of those put.
    pub closed spec fn wf(&self) -> bool {
        &&& self.image.columns() == self.width
        &&& self.image.rows() == self.height
        &&& self.total == self.width * self.height
        &&& self.completed <= self.total
        &&& self.progress == if self.total > 0 {
            percent(self.completed as nat, self.total as nat)
        } else {
            0
        }
    }

    /// The column and the row of the pixel to put next, or none when all are
    /// put.
    pub fn pixel(&self) -> (next: Option<(u32, u32)>)
        requires
            self.wf(),
        ensures
            match next {
                None => self.completed() == self.total(),
                Some((column, row)) => self.completed() < self.total() && self.width() > 0
                    && column == self.completed() % self.width() && row == self.completed()
                    / self.width(),
            },
    {
        if self.completed == self.total {
            return None;
        }
        assert(self.width > 0) by (nonlinear_arith)
            requires
                self.total == self.width * self.height,
                self.total > 0,
        ;
        Some((self.completed % self.width, self.completed / self.width))
    }

    /// The last progress value given out: the percent of the pixels put.
    pub fn progress(&self) -> (progress: u32)
        requires
            self.wf(),
        ensures
            progress == if self.total() > 0 {
                percent(self.completed(), self.total())
            } else {
                0
            },
    {
        self.progress
    }

    /// Puts the next pixel into the image. Gives out the new percent of
    /// completion where it has grown by this pixel.
    pub fn put(&mut self, color: Color) -> (emitted: Option<u32>)
        requires
            old(self).wf(),
            old(self).completed() < old(self).total(),
        ensures
            final(self).wf(),
            final(self).width() == old(self).width(),
            final(self).height() == old(self).height(),
            final(self).total() == old(self).total(),
            final(self).completed() == old(self).completed() + 1,
            final(self).canvas() == old(self).canvas().update(old(self).completed() as int, color),
            emitted == if percent(final(self).completed(), old(self).total()) > percent(
                old(self).completed(),
                old(self).total(),
            ) {
                Some(percent(final(self).completed(), old(self).total()) as u32)
            } else {
                None
            },
            emitted is Some ==> 0 < emitted->0 <= 100,
            final(self).given_out() == match emitted {
                Some(p) => old(self).given_out().push(p as nat),
                None => old(self).given_out(),
            },
    {
        assert(self.width > 0) by (nonlinear_arith)
            requires
                self.total == self.width * self.height,
                self.total > 0,
        ;
        let column = self.completed % self.width;
        let row = self.completed / self.width;
        proof {
            lemma_fundamental_div_mod(self.completed as int, self.width as int);
            assert(row < self.height) by (nonlinear_arith)
                requires
                    self.completed < self.width * self.height,
                    self.completed == self.width * row + column,
                    0 <= column,
                    0 < self.width,
            ;
            assert(row * self.width + column == self.completed) by (nonlinear_arith)
                requires
                    self.completed == self.width * row + column,
            ;
        }
        self.image.put_pixel(column, row, color);
        self.completed = self.completed + 1;
        proof {
            lemma_percent_is_bounded(self.completed as nat, self.total as nat);
        }
        let percent: u64 = (self.completed as u64) * 100 / (self.total as u64);
        if percent > self.progress as u64 {
            self.progress = percent as u32;
            Some(self.progress)
        } else {
            proof {
                lemma_percent_grows((self.completed - 1) as nat, self.completed as nat, self.total as nat);
            }
            None
        }
    }

    /// Ends the render and hands out the picture. Only a sweep that has come
    /// to its end can be finished: no picture leaves with pixels missing.
    pub fn finish(self) -> (picture: Picture)
        requires
            self.wf(),
            self.completed() == self.total(),
        ensures
            picture.colors() == self.canvas(),
            picture.columns() == self.width(),
            picture.rows() == self.height(),
    {
        self.image
    }
}

/// The percent never shrinks as pixels are completed.
pub proof fn lemma_percent_grows(a: nat, b: nat, total: nat)
    requires
        a <= b,
        total > 0,
    ensures
        percent(a, total) <= percent(b, total),
{
    assert(a * 100 <= b * 100) by (nonlinear_arith)
        requires
            a <= b,
    ;
    lemma_div_is_ordered((a * 100) as int, (b * 100) as int, total as int);
}

/// The percent runs from 0, with no pixel completed, to 100, with all.
pub proof fn lemma_percent_is_bounded(completed: nat, total: nat)
    requires
        completed <= total,
        total > 0,
    ensures
        percent(0, total) == 0,
        percent(total, total) == 100,
        percent(completed, total) <= 100,
{
    lemma_div_multiples_vanish(100, total as int);
    lemma_percent_grows(completed, total, total);
    lemma_fundamental_div_mod(0, total as int);
    assert(0int / (total as int) == 0) by (nonlinear_arith)
        requires
            total > 0,
    ;
}

proof fn lemma_emissions(total: nat, n: nat)
    requires
        total > 0,
        n <= total,
    ensures
        ({
            let e = emissions(total, n);
            &&& e.len() > 0 <==> percent(n, total) > 0
            &&& e.len() > 0 ==> e[0] > 0 && e.last() == percent(n, total)
            &&& forall|i: int, j: int| 0 <= i < j < e.len() ==> e[i] < e[j]
        }),
    decreases n,
{
    lemma_percent_is_bounded(n, total);
    if n > 0 {
        lemma_emissions(total, (n - 1) as nat);
        lemma_percent_grows((n - 1) as nat, n, total);
        let before = emissions(total, (n - 1) as nat);
        let e = emissions(total, n);
        if percent(n, total) > percent((n - 1) as nat, total) {
            assert forall|i: int, j: int| 0 <= i < j < e.len() implies e[i] < e[j] by {
                if j == before.len() {
                    assert(before[i] <= before.last());
                }
            }
        }
    }
}

/// While a render is under way, the progress values given out so far climb
/// without a step down or a repeat, begin above 0, and end at the percent of
/// the pixels put.
pub proof fn lemma_progress_climbs(total: nat, completed: nat)
    requires
        total > 0,
        completed <= total,
    ensures
        emissions(total, completed).len() > 0 <==> percent(completed, total) > 0,
        emissions(total, completed).len() > 0 ==> emissions(total, completed)[0] > 0
            && emissions(total, completed).last() == percent(completed, total),
        forall|i: int, j: int|
            0 <= i < j < emissions(total, completed).len() ==> emissions(total, completed)[i]
                < emissions(total, completed)[j],
        forall|i: int|
            0 <= i < emissions(total, completed).len() ==> emissions(total, completed)[i] <= 100,
{
    lemma_emissions(total, completed);
    lemma_percent_is_bounded(completed, total);
    let e = emissions(total, completed);
    assert forall|i: int| 0 <= i < e.len() implies e[i] <= 100 by {
        if i < e.len() - 1 {
            assert(e[i] < e.last());
        }
    }
}

/// The progress values that one render gives out climb without a step down or
/// a repeat, begin above 0 and end at exactly 100.
pub proof fn lemma_progress_climbs_to_hundred(total: nat)
    requires
        total > 0,
    ensures
        emissions(total, total).len() > 0,
        emissions(total, total)[0] > 0,
        emissions(total, total).last() == 100,
        forall|i: int, j: int|
            0 <= i < j < emissions(total, total).len() ==> emissions(total, total)[i]
                < emissions(total, total)[j],
{
    lemma_emissions(total, total);
    lemma_percent_is_bounded(total, total);
}

/// Tests whether every component of a vector is so near zero that the vector
/// gives no direction.
pub fn vector_near_zero(v: &Vector) -> (near: bool)
    ensures
        near == v.is_near_zero(),
{
    v.near_zero()
}

/// Tests whether a random point is kept: its squared distance from the origin
/// is at most one, so that it lies in the unit ball or on the unit disk.
pub fn in_unit_ball(length_squared: &Scalar) -> (kept: bool)
    ensures
        kept == length_squared.at_most(Scalar { bits: ONE }),
{
    length_squared.le(&Scalar::one())
}

} // verus!
