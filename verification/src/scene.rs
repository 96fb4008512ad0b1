//! The model of a scene description, and how a render is set up from it.
//!
//! A description leaves out what it likes; the functions here fill in the
//! rest and lay the scene out as the renderer wants it: a camera, the
//! materials, and the primitives, with each prism taken apart into its quads.

use vstd::prelude::*;
use crate::error::Error;
use crate::object::Defect;
use crate::object::Frame;
use crate::object::QuadCached;
use crate::scalar::Scalar;
use crate::scalar::ONE;
use crate::vector::Quaternion;
use crate::vector::Vector;

verus! {

/// The samples per pixel of a camera that names none.
pub const SAMPLES_PER_PIXEL: u32 = 100;

/// The bounces after which every path is given up.
pub const MAX_RAY_BOUNCES: u32 = 50;

/// A described scene.
pub struct Scene {
    pub camera: Camera,
    pub materials: Vec<Material>,
    pub objects: Vec<Object>,
}

/// A described camera.
#[derive(Clone, Copy, Debug)]
pub struct Camera {
    /// The width and the height of the image, in pixels.
    pub image_dimensions: (u32, u32),
    pub background_color: Option<(Scalar, Scalar, Scalar)>,
    pub position: Option<(Scalar, Scalar, Scalar)>,
    pub rotation: Option<Quaternion>,
    pub fov: Scalar,
    pub defocus: Option<Defocus>,
    pub samples_per_pixel: Option<u32>,
}

/// The depth of field of a described camera.
#[derive(Clone, Copy, Debug)]
pub struct Defocus {
    pub focus_distance: Scalar,
    pub defocus_angle: Scalar,
}

/// A described material.
#[derive(Clone, Copy, Debug)]
pub enum Material {
    Diffuse { albedo: (Scalar, Scalar, Scalar) },
    Metal { albedo: (Scalar, Scalar, Scalar) },
    Dielectric {
        /// Index of refraction.
        ir: Scalar,
    },
    Light { color: (Scalar, Scalar, Scalar) },
}

/// A described object: a shape, and its material by its place in the scene's
/// list.
#[derive(Clone, Copy, Debug)]
pub struct Object {
    pub material: usize,
    pub shape: Shape,
}

/// A described shape.
#[derive(Clone, Copy, Debug)]
pub enum Shape {
    Sphere { center: (Scalar, Scalar, Scalar), radius: Scalar },
    /// A quad, with the data calculated from its corner and edges.
    Quad {
        q: (Scalar, Scalar, Scalar),
        u: (Scalar, Scalar, Scalar),
        v: (Scalar, Scalar, Scalar),
        cached: QuadCached,
    },
    /// A box, by its frame after rotation, with the data calculated for each
    /// of the frame's six faces, in their order.
    Prism { frame: Frame, cached: [QuadCached; 6] },
}

/// The vector of three components.
pub open spec fn vector_of(t: (Scalar, Scalar, Scalar)) -> Vector {
    Vector { x: t.0, y: t.1, z: t.2 }
}

/// The vector of three components.
pub fn tuple_to_vector(t: (Scalar, Scalar, Scalar)) -> (v: Vector)
    ensures
        v == vector_of(t),
{
    let (x, y, z) = t;
    Vector::new(x, y, z)
}

/// The rotation that a description asks for: the one it names, and the one
/// that turns nothing where it names none.
pub open spec fn rotation_or_none(rotation: Option<Quaternion>) -> Quaternion {
    match rotation {
        Some(r) => r,
        None => Quaternion {
            i: Scalar { bits: 0 },
            j: Scalar { bits: 0 },
            k: Scalar { bits: 0 },
            w: Scalar { bits: ONE },
        },
    }
}

/// The rotation of a described camera or prism: the one the description
/// names, and the one that turns nothing where it names none.
pub fn resolve_rotation(rotation: Option<Quaternion>) -> (resolved: Quaternion)
    ensures
        resolved == rotation_or_none(rotation),
{
    match rotation {
        Some(r) => r,
        None => Quaternion::identity(),
    }
}

impl Material {
    /// The material as the renderer holds it.
    pub open spec fn resolved(self) -> crate::material::Material {
        match self {
            Material::Diffuse { albedo } => crate::material::Material::Diffuse {
                albedo: vector_of(albedo),
            },
            Material::Metal { albedo } => crate::material::Material::Metal {
                albedo: vector_of(albedo),
            },
            Material::Dielectric { ir } => crate::material::Material::Dielectric { ir },
            Material::Light { color } => crate::material::Material::Light {
                color: vector_of(color),
            },
        }
    }

    /// The material as the renderer holds it.
    pub fn resolve(&self) -> (material: crate::material::Material)
        ensures
            material == self.resolved(),
    {
        match self {
            Material::Diffuse { albedo } => crate::material::Material::Diffuse {
                albedo: tuple_to_vector(*albedo),
            },
            Material::Metal { albedo } => crate::material::Material::Metal {
                albedo: tuple_to_vector(*albedo),
            },
            Material::Dielectric { ir } => crate::material::Material::Dielectric { ir: *ir },
            Material::Light { color } => crate::material::Material::Light {
                color: tuple_to_vector(*color),
            },
        }
    }
}

impl Object {
    /// The primitives that the object is made of: one for a sphere or a quad,
    /// the six faces for a prism, all of the object's material.
    pub open spec fn primitives(self) -> Seq<crate::object::Object> {
        match self.shape {
            Shape::Sphere { center, radius } => seq![
                crate::object::Object::Sphere {
                    center: vector_of(center),
                    radius,
                    material: self.material,
                },
            ],
            Shape::Quad { q, u, v, cached } => seq![
                crate::object::Object::Quad {
                    q: vector_of(q),
                    u: vector_of(u),
                    v: vector_of(v),
                    material: self.material,
                    cached,
                },
            ],
            Shape::Prism { frame, cached } => crate::object::Object::prism_faces(
                frame,
                cached@,
                self.material,
            ),
        }
    }

    /// Whether the object can be built: the edges of a quad, and of every
    /// face of a prism, span a plane.
    pub open spec fn sound(self) -> bool {
        match self.shape {
            Shape::Sphere { center, radius } => true,
            Shape::Quad { q, u, v, cached } => cached.sound(),
            Shape::Prism { frame, cached } => forall|k: int|
                0 <= k < 6 ==> (#[trigger] cached@[k]).sound(),
        }
    }
}

impl Camera {
    /// The camera as the renderer holds it: what the description leaves out is
    /// a position at the origin, no rotation, a focus distance of one with no
    /// defocus, a black background and [`SAMPLES_PER_PIXEL`] samples.
    pub open spec fn resolved(self) -> crate::render::Camera {
        crate::render::Camera {
            image_width: self.image_dimensions.0,
            image_height: self.image_dimensions.1,
            position: match self.position {
                Some(p) => vector_of(p),
                None => Vector { x: Scalar { bits: 0 }, y: Scalar { bits: 0 }, z: Scalar { bits: 0 } },
            },
            rotation: rotation_or_none(self.rotation),
            fov: self.fov,
            focus_distance: match self.defocus {
                Some(d) => d.focus_distance,
                None => Scalar { bits: ONE },
            },
            defocus_angle: match self.defocus {
                Some(d) => d.defocus_angle,
                None => Scalar { bits: 0 },
            },
            background_color: match self.background_color {
                Some(c) => vector_of(c),
                None => Vector { x: Scalar { bits: 0 }, y: Scalar { bits: 0 }, z: Scalar { bits: 0 } },
            },
            samples_per_pixel: match self.samples_per_pixel {
                Some(n) => n,
                None => SAMPLES_PER_PIXEL,
            },
            max_depth: MAX_RAY_BOUNCES,
        }
    }
}

/// The primitives of the first `n` described objects, in their order.
pub open spec fn primitives_of(objects: Seq<Object>, n: nat) -> Seq<crate::object::Object>
    decreases n,
{
    if n == 0 {
        Seq::empty()
    } else {
        primitives_of(objects, (n - 1) as nat) + objects[n - 1].primitives()
    }
}

/// The materials of a scene, as the renderer holds them.
pub fn collect_materials(scene: &Scene) -> (result: Vec<crate::material::Material>)
    ensures
        result@.len() == scene.materials@.len(),
        forall|i: int| 0 <= i < result@.len() ==> result@[i] == scene.materials@[i].resolved(),
{
    let mut result: Vec<crate::material::Material> = Vec::new();
    let mut k: usize = 0;
    while k < scene.materials.len()
        invariant
            k <= scene.materials@.len(),
            result@.len() == k,
            forall|i: int| 0 <= i < k ==> result@[i] == scene.materials@[i].resolved(),
        decreases scene.materials@.len() - k,
    {
        result.push(scene.materials[k].resolve());
        k += 1;
    }
    result
}

/// The primitives of a scene: those of each object, in the order of the
/// description. A scene with a quad, or a face of a prism, whose edges span
/// no plane is refused.
pub fn create_objects(scene: &Scene) -> (result: Result<Vec<crate::object::Object>, Error>)
    ensures
        match result {
            Ok(objects) => (forall|i: int|
                0 <= i < scene.objects@.len() ==> (#[trigger] scene.objects@[i]).sound())
                && objects@ == primitives_of(scene.objects@, scene.objects@.len()),
            Err(e) => (exists|i: int|
                0 <= i < scene.objects@.len() && !(#[trigger] scene.objects@[i]).sound())
                && e.message@ == Defect::Basis.text(),
        },
{
    let mut result: Vec<crate::object::Object> = Vec::new();
    let mut k: usize = 0;
    while k < scene.objects.len()
        invariant
            k <= scene.objects@.len(),
            forall|i: int| 0 <= i < k ==> (#[trigger] scene.objects@[i]).sound(),
            result@ == primitives_of(scene.objects@, k as nat),
        decreases scene.objects@.len() - k,
    {
        let obj = &scene.objects[k];
        match obj.shape {
            Shape::Sphere { center, radius } => {
                result.push(crate::object::Object::sphere(tuple_to_vector(center), radius, obj.material));
            },
            Shape::Quad { q, u, v, cached } => {
                match crate::object::Object::quad(
                    tuple_to_vector(q),
                    tuple_to_vector(u),
                    tuple_to_vector(v),
                    obj.material,
                    cached,
                ) {
                    Ok(quad) => {
                        result.push(quad);
                    },
                    Err(e) => {
                        return Err(e);
                    },
                }
            },
            Shape::Prism { frame, cached } => {
                match crate::object::Object::prism(&frame, &cached, obj.material) {
                    Ok(quads) => {
                        let mut quads = quads;
                        result.append(&mut quads);
                    },
                    Err(e) => {
                        return Err(e);
                    },
                }
            },
        }
        k += 1;
    }
    Ok(result)
}

/// The camera of a scene, as the renderer holds it.
pub fn create_camera(scene: &Scene) -> (camera: crate::render::Camera)
    ensures
        camera == scene.camera.resolved(),
{
    let position = match scene.camera.position {
        Some(p) => tuple_to_vector(p),
        None => Vector::zeros(),
    };
    let rotation = resolve_rotation(scene.camera.rotation);
    let (focus_distance, defocus_angle) = match scene.camera.defocus {
        Some(defocus) => (defocus.focus_distance, defocus.defocus_angle),
        None => (Scalar::one(), Scalar::zero()),
    };
    let background_color = match scene.camera.background_color {
        Some(c) => tuple_to_vector(c),
        None => Vector::zeros(),
    };
    let samples_per_pixel = match scene.camera.samples_per_pixel {
        Some(n) => n,
        None => SAMPLES_PER_PIXEL,
    };
    let (image_width, image_height) = scene.camera.image_dimensions;
    crate::render::Camera {
        image_width,
        background_color,
        image_height,
        position,
        rotation,
        fov: scene.camera.fov,
        focus_distance,
        defocus_angle,
        samples_per_pixel,
        max_depth: MAX_RAY_BOUNCES,
    }
}

/// A scene's primitives keep the order of the description, and a prism stands
/// in the list as its six faces: one more described object adds its primitives
/// at the end.
pub proof fn lemma_primitives_in_order(objects: Seq<Object>, n: nat)
    requires
        n < objects.len(),
    ensures
        primitives_of(objects, n + 1) == primitives_of(objects, n) + objects[n as int].primitives(),
        objects[n as int].shape is Prism ==> objects[n as int].primitives().len() == 6,
        !(objects[n as int].shape is Prism) ==> objects[n as int].primitives().len() == 1,
{
}

} // verus!
