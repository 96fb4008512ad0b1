//! The scene graph and the choice of the nearest hit.
//!
//! A [`World`] lists the primitives and the materials they share. Where a ray
//! meets a primitive is arithmetic on real numbers and is done by the caller,
//! who hands the outcome over as a [`Crossing`]. The library decides from it
//! whether the primitive is struck, at which of its points, from which side,
//! and which of all the primitives is struck first.

use vstd::prelude::*;
use crate::scalar::Interval;
use crate::scalar::Scalar;
use crate::scalar::EPSILON;
use crate::scalar::ONE;
use crate::vector::Vector;

verus! {

/// A ray meeting a surface.
#[derive(Clone, Copy, Debug, PartialEq, Eq, Structural)]
pub struct Hit {
    /// The point at which the ray met the surface.
    pub p: Vector,
    /// The unit normal there, turned against the ray.
    pub normal: Vector,
    /// The distance along the ray at which they met.
    pub t: Scalar,
    /// Whether the ray came from outside the surface.
    pub front_face: bool,
    /// The material of the struck primitive, by its index in the world.
    pub material: usize,
}

/// One point at which a ray meets the surface that carries a primitive.
#[derive(Clone, Copy, Debug, PartialEq, Eq, Structural)]
pub struct Touch {
    /// The distance along the ray.
    pub t: Scalar,
    /// The point at that distance.
    pub p: Vector,
    /// The unit normal there that points out of the primitive.
    pub outward_normal: Vector,
    /// The ray's direction times that normal: below zero when the ray comes
    /// from outside.
    pub facing: Scalar,
}

/// What a ray meets on one primitive.
#[derive(Clone, Copy, Debug, PartialEq, Eq, Structural)]
pub enum Crossing {
    /// On a sphere: the discriminant of the quadratic and its two roots, the
    /// smaller first. The roots mean nothing where the discriminant is below
    /// zero.
    Sphere { discriminant: Scalar, near: Touch, far: Touch },
    /// On a quad: the point where the ray meets the quad's plane, and that
    /// point's two coordinates along the quad's edges.
    Quad { touch: Touch, alpha: Scalar, beta: Scalar },
}

/// A primitive of the scene.
#[derive(Clone, Copy, Debug, PartialEq, Eq, Structural)]
pub enum Object {
    Sphere { center: Vector, radius: Scalar, material: usize },
    Quad {
        /// The point from which the two edges extend.
        q: Vector,
        /// The first edge.
        u: Vector,
        /// The second edge.
        v: Vector,
        material: usize,
        /// Data calculated from the other fields.
        cached: QuadCached,
    },
}

/// Data calculated from a quad's corner and edges, for the arithmetic of its
/// crossings: the unit normal of its plane, the plane's offset along that
/// normal, and the vector that turns a point of the plane into its two
/// coordinates along the edges.
#[derive(Clone, Copy, Debug, PartialEq, Eq, Structural)]
pub struct QuadCached {
    pub normal: Vector,
    pub d: Scalar,
    pub w: Vector,
}

/// A box after its rotation: one corner of its base, the corner opposite to it
/// across the box, and the three edges that leave the first corner.
#[derive(Clone, Copy, Debug, PartialEq, Eq, Structural)]
pub struct Frame {
    pub corner: Vector,
    pub opposite: Vector,
    /// The edge along the width.
    pub u: Vector,
    /// The edge along the height.
    pub v: Vector,
    /// The edge along the depth.
    pub w: Vector,
}

/// One face of a box: a corner and the two edges that span the face from it.
#[derive(Clone, Copy, Debug, PartialEq, Eq, Structural)]
pub struct Face {
    pub q: Vector,
    pub u: Vector,
    pub v: Vector,
}

impl Frame {
    /// The six faces of the box: three on the first corner, three on the
    /// opposite one with the edges reversed. The two edges of each face are
    /// in the order in which the first turns to the second about the normal
    /// that leaves the box, where `u`, `v` and `w` are right-handed.
    pub open spec fn faces(self) -> Seq<Face> {
        seq![
            Face { q: self.corner, u: self.v, v: self.u },
            Face { q: self.corner, u: self.w, v: self.v },
            Face { q: self.corner, u: self.u, v: self.w },
            Face { q: self.opposite, u: self.u.opposite(), v: self.v.opposite() },
            Face { q: self.opposite, u: self.v.opposite(), v: self.w.opposite() },
            Face { q: self.opposite, u: self.w.opposite(), v: self.u.opposite() },
        ]
    }

    /// The six faces of the box, in their order.
    pub fn list_faces(&self) -> (faces: Vec<Face>)
        ensures
            faces@ == self.faces(),
    {
        let u = self.u;
        let v = self.v;
        let w = self.w;
        let mut faces: Vec<Face> = Vec::new();
        faces.push(Face { q: self.corner, u: v, v: u });
        faces.push(Face { q: self.corner, u: w, v: v });
        faces.push(Face { q: self.corner, u: u, v: w });
        faces.push(Face { q: self.opposite, u: u.neg(), v: v.neg() });
        faces.push(Face { q: self.opposite, u: v.neg(), v: w.neg() });
        faces.push(Face { q: self.opposite, u: w.neg(), v: u.neg() });
        faces
    }
}

/// The primitives of a scene, in order, and the materials they share.
pub struct World {
    pub objects: Vec<Object>,
    pub materials: Vec<crate::material::Material>,
}

/// The hit at a touch: the normal is turned against the ray, and the hit
/// records whether it had to be.
pub open spec fn facing_hit(touch: Touch, material: usize) -> Hit {
    let front_face = touch.facing.less(Scalar { bits: 0 });
    Hit {
        p: touch.p,
        normal: if front_face {
            touch.outward_normal
        } else {
            touch.outward_normal.opposite()
        },
        t: touch.t,
        front_face,
        material,
    }
}

/// The hit of a ray on a sphere within `range`: none where the discriminant is
/// below zero; else at the smaller root if the range holds it, else at the
/// larger root if the range holds that, else none.
pub open spec fn sphere_hit(
    discriminant: Scalar,
    near: Touch,
    far: Touch,
    range: Interval,
    material: usize,
) -> Option<Hit> {
    if discriminant.less(Scalar { bits: 0 }) {
        None
    } else if range.holds(near.t) {
        Some(facing_hit(near, material))
    } else if range.holds(far.t) {
        Some(facing_hit(far, material))
    } else {
        None
    }
}

/// Whether a coordinate along a quad's edge lies on the quad: from zero, up to
/// but not including one.
pub open spec fn on_edge(c: Scalar) -> bool {
    (Interval { min: Scalar { bits: 0 }, max: Scalar { bits: ONE } }).holds(c)
}

/// The hit of a ray on a quad within `range`: none where the ray runs along the
/// plane, where the range does not hold the distance, or where either
/// coordinate leaves the quad.
pub open spec fn quad_hit(
    touch: Touch,
    alpha: Scalar,
    beta: Scalar,
    range: Interval,
    material: usize,
) -> Option<Hit> {
    if touch.facing.magnitude() < EPSILON {
        None
    } else if !range.holds(touch.t) {
        None
    } else if !on_edge(alpha) || !on_edge(beta) {
        None
    } else {
        Some(facing_hit(touch, material))
    }
}

/// Determines the normal of a hit and the side from which the ray came.
fn face_normal(touch: &Touch, material: usize) -> (hit: Hit)
    ensures
        hit == facing_hit(*touch, material),
{
    let front_face = touch.facing.lt(&Scalar::zero());
    let normal = if front_face {
        touch.outward_normal
    } else {
        touch.outward_normal.neg()
    };
    Hit { p: touch.p, normal, t: touch.t, front_face, material }
}

/// Finds where a ray hits a sphere within `ray_t`, if it does.
fn hit_sphere(
    discriminant: &Scalar,
    near: &Touch,
    far: &Touch,
    ray_t: &Interval,
    material: usize,
) -> (hit: Option<Hit>)
    ensures
        hit == sphere_hit(*discriminant, *near, *far, *ray_t, material),
{
    if discriminant.lt(&Scalar::zero()) {
        return None;
    }
    let mut root = near;
    if !ray_t.contains(&root.t) {
        root = far;
        if !ray_t.contains(&root.t) {
            return None;
        }
    }
    Some(face_normal(root, material))
}

/// Finds where a ray hits a quad within `ray_t`, if it does.
fn hit_quad(touch: &Touch, alpha: &Scalar, beta: &Scalar, ray_t: &Interval, material: usize) -> (hit:
    Option<Hit>)
    ensures
        hit == quad_hit(*touch, *alpha, *beta, *ray_t, material),
{
    if touch.facing.abs().to_bits() < EPSILON {
        return None;
    }
    if !ray_t.contains(&touch.t) {
        return None;
    }
    let unit = Interval::unit();
    if !unit.contains(alpha) || !unit.contains(beta) {
        return None;
    }
    Some(face_normal(touch, material))
}

impl Crossing {
    /// Whether the crossing is one that geometry can give: on a sphere the
    /// root that is tried first is not beyond the other.
    pub open spec fn ordered(self) -> bool {
        match self {
            Crossing::Sphere { discriminant, near, far } => !far.t.less(near.t),
            Crossing::Quad { touch, alpha, beta } => true,
        }
    }

    /// Tests whether the crossing is one that geometry can give.
    pub fn is_ordered(&self) -> (b: bool)
        ensures
            b == self.ordered(),
    {
        match self {
            Crossing::Sphere { discriminant, near, far } => !far.t.lt(&near.t),
            Crossing::Quad { touch, alpha, beta } => true,
        }
    }
}

impl Object {
    /// The material of the primitive, by its index in the world.
    pub open spec fn material_index(self) -> usize {
        match self {
            Object::Sphere { center, radius, material } => material,
            Object::Quad { q, u, v, material, cached } => material,
        }
    }

    /// Whether the crossing is of this primitive's kind, and ordered.
    pub open spec fn fits(self, crossing: Crossing) -> bool {
        crossing.ordered() && match self {
            Object::Sphere { center, radius, material } => crossing is Sphere,
            Object::Quad { q, u, v, material, cached } => crossing is Quad,
        }
    }

    /// Tests whether the crossing is of this primitive's kind, and ordered.
    pub fn accepts(&self, crossing: &Crossing) -> (fits: bool)
        ensures
            fits == self.fits(*crossing),
    {
        crossing.is_ordered() && match self {
            Object::Sphere { center, radius, material } => match crossing {
                Crossing::Sphere { discriminant, near, far } => true,
                Crossing::Quad { touch, alpha, beta } => false,
            },
            Object::Quad { q, u, v, material, cached } => match crossing {
                Crossing::Sphere { discriminant, near, far } => false,
                Crossing::Quad { touch, alpha, beta } => true,
            },
        }
    }

    /// The hit on this primitive within `range`, by the rule of its kind.
    pub open spec fn strike(self, crossing: Crossing, range: Interval) -> Option<Hit> {
        match crossing {
            Crossing::Sphere { discriminant, near, far } => sphere_hit(
                discriminant,
                near,
                far,
                range,
                self.material_index(),
            ),
            Crossing::Quad { touch, alpha, beta } => quad_hit(
                touch,
                alpha,
                beta,
                range,
                self.material_index(),
            ),
        }
    }

    /// The six faces of a box as quads of one material, each with the data
    /// calculated for it.
    pub open spec fn prism_faces(frame: Frame, cached: Seq<QuadCached>, material: usize) -> Seq<
        Object,
    > {
        Seq::new(
            6,
            |k: int|
                Object::Quad {
                    q: frame.faces()[k].q,
                    u: frame.faces()[k].u,
                    v: frame.faces()[k].v,
                    material,
                    cached: cached[k],
                },
        )
    }

    /// A sphere.
    pub fn sphere(center: Vector, radius: Scalar, material: usize) -> (object: Object)
        ensures
            object == (Object::Sphere { center, radius, material }),
    {
        Object::Sphere { center, radius, material }
    }

    /// A quad: the parallelogram that the edges `u` and `v` span from `q`,
    /// with the data calculated from them. Edges that span no plane are
    /// refused.
    pub fn quad(q: Vector, u: Vector, v: Vector, material: usize, cached: QuadCached) -> (made:
        Result<Object, crate::error::Error>)
        ensures
            match made {
                Ok(object) => cached.sound() && object == (Object::Quad {
                    q,
                    u,
                    v,
                    material,
                    cached,
                }),
                Err(e) => !cached.sound() && e.message@ == Defect::Basis.text(),
            },
    {
        match cached.check() {
            None => Ok(Object::Quad { q, u, v, material, cached }),
            Some(defect) => Err(defect.error()),
        }
    }

    /// Constructs a prism. A prism is not a primitive of its own; it is six
    /// quads, the faces of its frame in their order, each with the data
    /// calculated for it. A face whose edges span no plane is refused.
    pub fn prism(frame: &Frame, cached: &[QuadCached; 6], material: usize) -> (made: Result<
        Vec<Object>,
        crate::error::Error,
    >)
        ensures
            match made {
                Ok(quads) => (forall|k: int| 0 <= k < 6 ==> (#[trigger] cached@[k]).sound())
                    && quads@ == Object::prism_faces(*frame, cached@, material),
                Err(e) => (exists|k: int| 0 <= k < 6 && !(#[trigger] cached@[k]).sound())
                    && e.message@ == Defect::Basis.text(),
            },
    {
        let faces = frame.list_faces();
        let mut quads: Vec<Object> = Vec::new();
        let mut k: usize = 0;
        while k < 6
            invariant
                k <= 6,
                faces@ == frame.faces(),
                quads@.len() == k,
                forall|i: int| 0 <= i < k ==> (#[trigger] cached@[i]).sound(),
                forall|i: int|
                    0 <= i < k ==> quads@[i] == Object::prism_faces(*frame, cached@, material)[i],
            decreases 6 - k,
        {
            let face = faces[k];
            match Object::quad(face.q, face.u, face.v, material, cached[k]) {
                Ok(quad) => {
                    quads.push(quad);
                },
                Err(e) => {
                    return Err(e);
                },
            }
            k += 1;
        }
        Ok(quads)
    }

    /// Finds where a ray hits this primitive within `ray_t`, if it does.
    pub fn hit(&self, crossing: &Crossing, ray_t: &Interval) -> (hit: Option<Hit>)
        ensures
            hit == self.strike(*crossing, *ray_t),
    {
        let material = match self {
            Object::Sphere { center, radius, material } => *material,
            Object::Quad { q, u, v, material, cached } => *material,
        };
        match crossing {
            Crossing::Sphere { discriminant, near, far } => hit_sphere(
                discriminant,
                near,
                far,
                ray_t,
                material,
            ),
            Crossing::Quad { touch, alpha, beta } => hit_quad(touch, alpha, beta, ray_t, material),
        }
    }
}

/// Tightening the upper bound of a range to a distance that the range holds
/// leaves a primitive's hit as it is where the hit is nearer than the new
/// bound, and takes it away where it is not.
proof fn lemma_tighter_bound(object: Object, crossing: Crossing, range: Interval, closest: Scalar)
    requires
        object.fits(crossing),
        closest == range.max || range.holds(closest),
    ensures
        ({
            let tight = object.strike(crossing, Interval { min: range.min, max: closest });
            let solo = object.strike(crossing, range);
            &&& tight is Some ==> solo == tight && tight->0.t.less(closest) && range.holds(
                tight->0.t,
            )
            &&& tight is None && solo is Some ==> closest.at_most(solo->0.t)
            &&& solo is Some ==> range.holds(solo->0.t)
        }),
{
}

impl World {
    /// Whether every primitive has its crossing, of its kind and ordered.
    pub open spec fn fits(&self, crossings: Seq<Crossing>) -> bool {
        &&& crossings.len() == self.objects@.len()
        &&& forall|i: int|
            0 <= i < crossings.len() ==> (#[trigger] self.objects@[i]).fits(crossings[i])
    }

    /// Tests whether every primitive has its crossing, of its kind and
    /// ordered.
    pub fn accepts(&self, crossings: &Vec<Crossing>) -> (fits: bool)
        ensures
            fits == self.fits(crossings@),
    {
        if crossings.len() != self.objects.len() {
            return false;
        }
        let mut k: usize = 0;
        while k < crossings.len()
            invariant
                k <= crossings@.len(),
                crossings@.len() == self.objects@.len(),
                forall|i: int| 0 <= i < k ==> (#[trigger] self.objects@[i]).fits(crossings@[i]),
            decreases crossings@.len() - k,
        {
            if !self.objects[k].accepts(&crossings[k]) {
                return false;
            }
            k += 1;
        }
        true
    }

    /// The hit on primitive `i` within `range`, were it alone in the world.
    pub open spec fn solo(&self, crossings: Seq<Crossing>, range: Interval, i: int) -> Option<
        Hit,
    > {
        self.objects@[i].strike(crossings[i], range)
    }

    /// Whether primitive `j` is the one struck first among the first `n`: it is
    /// struck, none before it in the list is struck as near, and none after it
    /// is struck nearer.
    pub open spec fn first_struck(
        &self,
        crossings: Seq<Crossing>,
        range: Interval,
        n: int,
        j: int,
    ) -> bool {
        &&& 0 <= j < n
        &&& self.solo(crossings, range, j) is Some
        &&& forall|i: int|
            0 <= i < n && (#[trigger] self.solo(crossings, range, i)) is Some ==> if i < j {
                self.solo(crossings, range, j)->0.t.less(self.solo(crossings, range, i)->0.t)
            } else {
                self.solo(crossings, range, j)->0.t.at_most(self.solo(crossings, range, i)->0.t)
            }
    }

    /// Whether `hit` is the nearest hit among the first `n` primitives: none
    /// where none of them is struck, else the hit on the one struck first.
    pub open spec fn nearest_of(
        &self,
        crossings: Seq<Crossing>,
        range: Interval,
        n: int,
        hit: Option<Hit>,
    ) -> bool {
        match hit {
            None => forall|i: int|
                0 <= i < n ==> (#[trigger] self.solo(crossings, range, i)) is None,
            Some(h) => exists|j: int| #[trigger]
                self.first_struck(crossings, range, n, j) && self.solo(crossings, range, j)
                    == Some(h),
        }
    }

    /// Whether `hit` is the nearest hit in the world within `range`.
    pub open spec fn nearest(&self, crossings: Seq<Crossing>, range: Interval, hit: Option<Hit>) -> bool {
        self.nearest_of(crossings, range, self.objects@.len() as int, hit)
    }

    /// Finds the nearest hit of a ray in the world at a distance from
    /// `ray_t_min` up to `ray_t_max`. Of two primitives struck at the same
    /// distance the earlier in the list is hit.
    pub fn hit(&self, crossings: &Vec<Crossing>, ray_t_min: Scalar, ray_t_max: Scalar) -> (hit:
        Option<Hit>)
        requires
            self.fits(crossings@),
        ensures
            self.nearest(crossings@, Interval { min: ray_t_min, max: ray_t_max }, hit),
    {
        let ghost range = Interval { min: ray_t_min, max: ray_t_max };
        let mut hit: Option<Hit> = None;
        let mut closest = ray_t_max;
        let mut k: usize = 0;
        while k < self.objects.len()
            invariant
                k <= self.objects@.len(),
                self.fits(crossings@),
                range == (Interval { min: ray_t_min, max: ray_t_max }),
                self.nearest_of(crossings@, range, k as int, hit),
                match hit {
                    None => closest == ray_t_max,
                    Some(h) => closest == h.t && range.holds(h.t),
                },
            decreases self.objects@.len() - k,
        {
            let bound = Interval::new(ray_t_min, closest);
            let found = self.objects[k].hit(&crossings[k], &bound);
            proof {
                lemma_tighter_bound(self.objects@[k as int], crossings@[k as int], range, closest);
                match found {
                    Some(new_hit) => {
                        assert(self.first_struck(crossings@, range, k + 1, k as int)) by {
                            if let Some(h) = hit {
                                let j = choose|j: int| #[trigger]
                                    self.first_struck(crossings@, range, k as int, j) && self.solo(
                                        crossings@,
                                        range,
                                        j,
                                    ) == Some(h);
                            }
                        }
                    },
                    None => {
                        if let Some(h) = hit {
                            let j = choose|j: int| #[trigger]
                                self.first_struck(crossings@, range, k as int, j) && self.solo(
                                    crossings@,
                                    range,
                                    j,
                                ) == Some(h);
                            assert(self.first_struck(crossings@, range, k + 1, j));
                        }
                    },
                }
            }
            if let Some(new_hit) = found {
                closest = new_hit.t;
                hit = Some(new_hit);
            }
            k += 1;
        }
        hit
    }
}

/// What makes a primitive unfit for a world.
#[derive(Clone, Copy, Debug, PartialEq, Eq, Structural)]
pub enum Defect {
    /// Its material index names no material of the world.
    Material,
    /// It is a sphere whose radius is not above zero.
    Radius,
    /// It is a quad whose edges span no plane.
    Basis,
}

impl Defect {
    /// The message of the error that reports the defect.
    pub open spec fn text(self) -> Seq<char> {
        match self {
            Defect::Material => "material index out of range"@,
            Defect::Radius => "sphere radius must be positive"@,
            Defect::Basis => "quad edges span no plane"@,
        }
    }

    /// The error that reports the defect.
    pub fn error(&self) -> (e: crate::error::Error)
        ensures
            e.message@ == self.text(),
    {
        match self {
            Defect::Material => crate::error::Error::new("material index out of range"),
            Defect::Radius => crate::error::Error::new("sphere radius must be positive"),
            Defect::Basis => crate::error::Error::new("quad edges span no plane"),
        }
    }
}

impl QuadCached {
    /// Whether the data stands for a plane: each of its numbers is a number,
    /// and none is infinite. Edges that span no plane have a cross product of
    /// zero, and dividing by its length leaves no number.
    pub open spec fn sound(self) -> bool {
        self.normal.is_finite() && self.d.is_finite() && self.w.is_finite()
    }

    /// Finds the defect of the quad that the data was calculated from.
    pub fn check(&self) -> (found: Option<Defect>)
        ensures
            found == if self.sound() {
                None
            } else {
                Some(Defect::Basis)
            },
    {
        if self.normal.finite() && self.d.finite() && self.w.finite() {
            None
        } else {
            Some(Defect::Basis)
        }
    }
}

impl Object {
    /// The defect of the primitive in a world of `materials` materials, if it
    /// has one; a bad material index is reported before a bad radius or
    /// basis.
    pub open spec fn defect(self, materials: int) -> Option<Defect> {
        if self.material_index() >= materials {
            Some(Defect::Material)
        } else {
            match self {
                Object::Sphere { center, radius, material } => if (Scalar { bits: 0 }).less(
                    radius,
                ) {
                    None
                } else {
                    Some(Defect::Radius)
                },
                Object::Quad { q, u, v, material, cached } => if cached.sound() {
                    None
                } else {
                    Some(Defect::Basis)
                },
            }
        }
    }

    /// Finds the defect of the primitive in a world of `materials` materials.
    pub fn check(&self, materials: usize) -> (found: Option<Defect>)
        ensures
            found == self.defect(materials as int),
    {
        match self {
            Object::Sphere { center, radius, material } => {
                if *material >= materials {
                    Some(Defect::Material)
                } else if Scalar::zero().lt(radius) {
                    None
                } else {
                    Some(Defect::Radius)
                }
            },
            Object::Quad { q, u, v, material, cached } => {
                if *material >= materials {
                    Some(Defect::Material)
                } else {
                    cached.check()
                }
            },
        }
    }
}

impl World {
    /// Whether the world is well formed: every primitive names a material of
    /// the world, every sphere has a radius above zero, and the edges of
    /// every quad span a plane.
    pub open spec fn wf(&self) -> bool {
        forall|i: int|
            0 <= i < self.objects@.len() ==> (#[trigger] self.objects@[i]).defect(
                self.materials@.len() as int,
            ) is None
    }

    /// Builds a world, or reports the defect of the first primitive that has
    /// one.
    pub fn new(objects: Vec<Object>, materials: Vec<crate::material::Material>) -> (made: Result<
        World,
        crate::error::Error,
    >)
        ensures
            match made {
                Ok(world) => world.objects == objects && world.materials == materials
                    && world.wf(),
                Err(e) => exists|k: int|
                    0 <= k < objects@.len() && (#[trigger] objects@[k]).defect(
                        materials@.len() as int,
                    ) is Some && e.message@ == objects@[k].defect(
                        materials@.len() as int,
                    )->0.text() && forall|i: int|
                        0 <= i < k ==> (#[trigger] objects@[i]).defect(materials@.len() as int)
                            is None,
            },
    {
        let mut k: usize = 0;
        while k < objects.len()
            invariant
                k <= objects@.len(),
                forall|i: int|
                    0 <= i < k ==> (#[trigger] objects@[i]).defect(materials@.len() as int)
                        is None,
            decreases objects@.len() - k,
        {
            if let Some(defect) = objects[k].check(materials.len()) {
                return Err(defect.error());
            }
            k += 1;
        }
        Ok(World { objects, materials })
    }
}

/// Where both roots of a sphere's quadratic lie in the range, the ray hits the
/// sphere at the smaller one.
pub proof fn lemma_nearer_root_is_hit(
    discriminant: Scalar,
    near: Touch,
    far: Touch,
    range: Interval,
    material: usize,
)
    requires
        !discriminant.less(Scalar { bits: 0 }),
        range.holds(near.t),
        range.holds(far.t),
        near.t.at_most(far.t),
    ensures
        sphere_hit(discriminant, near, far, range, material) == Some(facing_hit(near, material)),
        sphere_hit(discriminant, near, far, range, material)->0.t.at_most(far.t),
{
}

/// A quad is hit only at a point whose two coordinates both lie from zero up
/// to, but not including, one: a point on the far edges, or beyond any edge,
/// is missed.
pub proof fn lemma_quad_hit_is_inside(
    touch: Touch,
    alpha: Scalar,
    beta: Scalar,
    range: Interval,
    material: usize,
)
    ensures
        on_edge(alpha) <==> !alpha.is_nan() && 0 <= alpha.key() < ONE,
        quad_hit(touch, alpha, beta, range, material) is Some <==> touch.facing.magnitude()
            >= EPSILON && range.holds(touch.t) && on_edge(alpha) && on_edge(beta),
        alpha.bits == ONE || beta.bits == ONE ==> quad_hit(touch, alpha, beta, range, material)
            is None,
        alpha.key() < 0 || beta.key() < 0 ==> quad_hit(touch, alpha, beta, range, material)
            is None,
{
}

/// A hit always opposes the ray: its normal is the outward normal where the
/// ray came from outside, and the opposite of it where the ray came from
/// inside.
pub proof fn lemma_hit_opposes_ray(touch: Touch, material: usize)
    ensures
        facing_hit(touch, material).front_face <==> touch.facing.less(Scalar { bits: 0 }),
        facing_hit(touch, material).front_face ==> facing_hit(touch, material).normal
            == touch.outward_normal,
        !facing_hit(touch, material).front_face ==> facing_hit(touch, material).normal
            == touch.outward_normal.opposite(),
        facing_hit(touch, material).t == touch.t,
        facing_hit(touch, material).p == touch.p,
{
}

/// A prism is exactly six quads of the one material, three on each of its two
/// corners, and each holds the data calculated for it.
pub proof fn lemma_prism_has_six_faces(frame: Frame, cached: Seq<QuadCached>, material: usize)
    ensures
        Object::prism_faces(frame, cached, material).len() == 6,
        forall|k: int|
            0 <= k < 6 ==> (#[trigger] Object::prism_faces(frame, cached, material)[k]) is Quad
                && Object::prism_faces(frame, cached, material)[k].material_index() == material
                && Object::prism_faces(frame, cached, material)[k]->cached == cached[k],
        forall|k: int|
            0 <= k < 3 ==> (#[trigger] Object::prism_faces(frame, cached, material)[k])->q
                == frame.corner,
        forall|k: int|
            3 <= k < 6 ==> (#[trigger] Object::prism_faces(frame, cached, material)[k])->q
                == frame.opposite,
{
}

/// A well-formed world holds no quad whose edges span no plane: the data
/// calculated for each of its quads is sound.
pub proof fn lemma_basis_is_checked(world: World, i: int)
    requires
        world.wf(),
        0 <= i < world.objects@.len(),
        world.objects@[i] is Quad,
    ensures
        world.objects@[i]->cached.sound(),
{
}

/// The nearest hit is at the least distance at which any primitive is struck,
/// whatever the order of the list: two worlds that hold the same hits give
/// hits at the same distance, and the same hit unless two different hits lie
/// at one distance.
pub proof fn lemma_nearest_ignores_order(
    a: World,
    ca: Seq<Crossing>,
    ha: Option<Hit>,
    b: World,
    cb: Seq<Crossing>,
    hb: Option<Hit>,
    range: Interval,
)
    requires
        ca.len() == a.objects@.len(),
        cb.len() == b.objects@.len(),
        a.nearest(ca, range, ha),
        b.nearest(cb, range, hb),
        forall|i: int|
            0 <= i < ca.len() ==> exists|j: int|
                0 <= j < cb.len() && #[trigger] b.solo(cb, range, j) == #[trigger] a.solo(
                    ca,
                    range,
                    i,
                ),
        forall|j: int|
            0 <= j < cb.len() ==> exists|i: int|
                0 <= i < ca.len() && #[trigger] a.solo(ca, range, i) == #[trigger] b.solo(
                    cb,
                    range,
                    j,
                ),
    ensures
        ha is None <==> hb is None,
        ha is Some ==> ha->0.t.key() == hb->0.t.key(),
        (forall|i: int, j: int|
            0 <= i < ca.len() && 0 <= j < ca.len() && (#[trigger] a.solo(ca, range, i)) is Some
                && (#[trigger] a.solo(ca, range, j)) is Some && a.solo(ca, range, i)->0.t.key()
                == a.solo(ca, range, j)->0.t.key() ==> a.solo(ca, range, i) == a.solo(
                ca,
                range,
                j,
            )) ==> ha == hb,
{
    let na = ca.len() as int;
    let nb = cb.len() as int;
    if let Some(x) = ha {
        let i = choose|i: int| #[trigger]
            a.first_struck(ca, range, na, i) && a.solo(ca, range, i) == Some(x);
        let j = choose|j: int| 0 <= j < nb && #[trigger] b.solo(cb, range, j) == a.solo(ca, range, i);
        let y = hb->0;
        let jj = choose|jj: int| #[trigger]
            b.first_struck(cb, range, nb, jj) && b.solo(cb, range, jj) == Some(y);
        let ii = choose|ii: int|
            0 <= ii < na && #[trigger] a.solo(ca, range, ii) == b.solo(cb, range, jj);
        assert(a.solo(ca, range, ii) is Some);
        assert(y.t.at_most(x.t));
    } else {
        if let Some(y) = hb {
            let jj = choose|jj: int| #[trigger]
                b.first_struck(cb, range, nb, jj) && b.solo(cb, range, jj) == Some(y);
            let ii = choose|ii: int|
                0 <= ii < na && #[trigger] a.solo(ca, range, ii) == b.solo(cb, range, jj);
        }
    }
}

/// The nearest hit is one hit only: of two primitives struck at one distance
/// the earlier in the list is hit, so two answers to one question are the
/// same.
pub proof fn lemma_nearest_is_settled(
    world: &World,
    crossings: Seq<Crossing>,
    range: Interval,
    first: Option<Hit>,
    second: Option<Hit>,
)
    requires
        world.nearest(crossings, range, first),
        world.nearest(crossings, range, second),
    ensures
        first == second,
{
    let n = world.objects@.len() as int;
    if let Some(a) = first {
        let i = choose|i: int| #[trigger]
            world.first_struck(crossings, range, n, i) && world.solo(crossings, range, i)
                == Some(a);
        if let Some(b) = second {
            let j = choose|j: int| #[trigger]
                world.first_struck(crossings, range, n, j) && world.solo(crossings, range, j)
                    == Some(b);
        }
    } else if let Some(b) = second {
        let j = choose|j: int| #[trigger]
            world.first_struck(crossings, range, n, j) && world.solo(crossings, range, j)
                == Some(b);
    }
}

/// A world without primitives is never hit.
pub proof fn lemma_empty_world_is_missed(world: World, range: Interval, hit: Option<Hit>)
    requires
        world.objects@.len() == 0,
        world.nearest(Seq::empty(), range, hit),
    ensures
        hit is None,
{
}

} // verus!
