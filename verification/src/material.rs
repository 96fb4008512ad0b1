//! Surface materials and how each scatters a ray.
//!
//! Which way a ray leaves a surface is partly chance and partly arithmetic on
//! real numbers; the caller draws and measures, and hands the outcome over as a
//! [`Sample`]. The library decides from it whether the ray scatters, how much
//! of it is left, and by which rule it leaves.

use vstd::prelude::*;
use crate::object::Hit;
use crate::scalar::Scalar;
use crate::scalar::ONE;
use crate::vector::Vector;

verus! {

/// A surface material.
#[derive(Clone, Copy, Debug, PartialEq, Eq, Structural)]
pub enum Material {
    Diffuse { albedo: Vector },
    Metal { albedo: Vector },
    Dielectric {
        /// Index of refraction.
        ir: Scalar,
    },
    Light { color: Vector },
}

/// What light does at the boundary of a dielectric, for one refraction ratio.
#[derive(Clone, Copy, Debug, PartialEq, Eq, Structural)]
pub struct Fresnel {
    /// The refraction ratio: the index of refraction on the side the ray
    /// comes from over that on the other side.
    pub ratio: Scalar,
    /// The refraction ratio times the sine of the angle of incidence: above
    /// one, the ray cannot refract.
    pub bend: Scalar,
    /// The share of the light that is reflected, by Schlick's approximation.
    pub reflectance: Scalar,
}

/// What the caller drew and measured for one hit.
#[derive(Clone, Copy, Debug, PartialEq, Eq, Structural)]
pub struct Sample {
    /// The hit's normal plus a random unit vector.
    pub lambert: Vector,
    /// The boundary as a ray meets it from outside: the ratio is one over the
    /// index of refraction.
    pub entering: Fresnel,
    /// The boundary as a ray meets it from inside: the ratio is the index of
    /// refraction.
    pub leaving: Fresnel,
    /// A uniform draw from zero up to, but not including, one.
    pub draw: Scalar,
}

/// The rule by which a scattered ray leaves the surface.
#[derive(Clone, Copy, Debug, PartialEq, Eq, Structural)]
pub enum Outgoing {
    /// In the given direction.
    Along(Vector),
    /// Mirrored about the normal.
    Reflect,
    /// Bent through the surface by Snell's law, with the refraction ratio of
    /// the side that the ray came from.
    Refract { ratio: Scalar },
}

/// A scattered ray: what is left of the light, colour by colour, and the way
/// it leaves.
#[derive(Clone, Copy, Debug, PartialEq, Eq, Structural)]
pub struct Scatter {
    pub attenuation: Vector,
    pub outgoing: Outgoing,
}

/// The boundary of a dielectric as the ray of a hit meets it: from outside
/// where the hit is on the front face, from inside where it is not.
pub open spec fn boundary_met(hit: Hit, sample: Sample) -> Fresnel {
    if hit.front_face {
        sample.entering
    } else {
        sample.leaving
    }
}

/// Whether a ray is reflected at the boundary of a dielectric: always where it
/// cannot refract, and else with the chance that the reflectance gives.
pub open spec fn reflects(boundary: Fresnel, draw: Scalar) -> bool {
    (Scalar { bits: ONE }).less(boundary.bend) || draw.less(boundary.reflectance)
}

impl Material {
    /// What the material does with a ray that hits it.
    pub open spec fn scattered(self, hit: Hit, sample: Sample) -> Option<Scatter> {
        match self {
            Material::Diffuse { albedo } => Some(
                Scatter {
                    attenuation: albedo,
                    outgoing: Outgoing::Along(
                        if sample.lambert.is_near_zero() {
                            hit.normal
                        } else {
                            sample.lambert
                        },
                    ),
                },
            ),
            Material::Metal { albedo } => Some(
                Scatter { attenuation: albedo, outgoing: Outgoing::Reflect },
            ),
            Material::Dielectric { ir } => Some(
                Scatter {
                    attenuation: Vector {
                        x: Scalar { bits: ONE },
                        y: Scalar { bits: ONE },
                        z: Scalar { bits: ONE },
                    },
                    outgoing: if reflects(boundary_met(hit, sample), sample.draw) {
                        Outgoing::Reflect
                    } else {
                        Outgoing::Refract { ratio: boundary_met(hit, sample).ratio }
                    },
                },
            ),
            Material::Light { color } => None,
        }
    }

    /// The light that the material gives off: its colour for a light, none for
    /// any other.
    pub open spec fn emitted(self) -> Vector {
        match self {
            Material::Light { color } => color,
            _ => Vector { x: Scalar { bits: 0 }, y: Scalar { bits: 0 }, z: Scalar { bits: 0 } },
        }
    }

    /// A diffuse material of the given albedo.
    pub fn diffuse(r: Scalar, g: Scalar, b: Scalar) -> (material: Material)
        ensures
            material == (Material::Diffuse { albedo: Vector { x: r, y: g, z: b } }),
    {
        Material::Diffuse { albedo: Vector::new(r, g, b) }
    }

    /// A metal of the given albedo.
    pub fn metal(r: Scalar, g: Scalar, b: Scalar) -> (material: Material)
        ensures
            material == (Material::Metal { albedo: Vector { x: r, y: g, z: b } }),
    {
        Material::Metal { albedo: Vector::new(r, g, b) }
    }

    /// A dielectric of the given index of refraction.
    pub fn dielectric(ir: Scalar) -> (material: Material)
        ensures
            material == (Material::Dielectric { ir }),
    {
        Material::Dielectric { ir }
    }

    /// Scatter a ray according to this material.
    pub fn scatter(&self, hit: &Hit, sample: &Sample) -> (scatter: Option<Scatter>)
        ensures
            scatter == self.scattered(*hit, *sample),
    {
        match self {
            Material::Diffuse { albedo } => scatter_diffuse(hit, sample, albedo),
            Material::Metal { albedo } => scatter_metal(albedo),
            Material::Dielectric { ir } => scatter_dielectric(hit, sample),
            Material::Light { color } => None,
        }
    }

    /// The light that the material gives off.
    pub fn emit(&self) -> (color: Vector)
        ensures
            color == self.emitted(),
    {
        match self {
            Material::Diffuse { albedo } => Vector::zeros(),
            Material::Metal { albedo } => Vector::zeros(),
            Material::Dielectric { ir } => Vector::zeros(),
            Material::Light { color } => *color,
        }
    }
}

fn scatter_diffuse(hit: &Hit, sample: &Sample, albedo: &Vector) -> (scatter: Option<Scatter>)
    ensures
        scatter == (Material::Diffuse { albedo: *albedo }).scattered(*hit, *sample),
{
    let mut scatter_direction = sample.lambert;
    // A direction that is too small cannot be told from no direction at all.
    if scatter_direction.near_zero() {
        scatter_direction = hit.normal;
    }
    Some(Scatter { attenuation: *albedo, outgoing: Outgoing::Along(scatter_direction) })
}

fn scatter_metal(albedo: &Vector) -> (scatter: Option<Scatter>)
    ensures
        scatter == Some(Scatter { attenuation: *albedo, outgoing: Outgoing::Reflect }),
{
    Some(Scatter { attenuation: *albedo, outgoing: Outgoing::Reflect })
}

fn scatter_dielectric(hit: &Hit, sample: &Sample) -> (scatter: Option<Scatter>)
    ensures
        scatter == (Material::Dielectric { ir: Scalar { bits: 0 } }).scattered(*hit, *sample),
{
    let attenuation = Vector::ones();
    let boundary = if hit.front_face {
        sample.entering
    } else {
        sample.leaving
    };
    let cannot_refract = Scalar::one().lt(&boundary.bend);
    let outgoing = if cannot_refract || sample.draw.lt(&boundary.reflectance) {
        Outgoing::Reflect
    } else {
        Outgoing::Refract { ratio: boundary.ratio }
    };
    Some(Scatter { attenuation, outgoing })
}

/// Every material but a light scatters every ray, and a light scatters none;
/// a diffuse surface and a metal leave of the light what their albedo says,
/// and a dielectric leaves all of it.
pub proof fn lemma_scatter_by_kind(material: Material, hit: Hit, sample: Sample)
    ensures
        material.scattered(hit, sample) is None <==> material is Light,
        material is Diffuse ==> material.scattered(hit, sample)->0.attenuation
            == material->Diffuse_albedo,
        material is Metal ==> material.scattered(hit, sample)->0 == (Scatter {
            attenuation: material->Metal_albedo,
            outgoing: Outgoing::Reflect,
        }),
        material is Dielectric ==> material.scattered(hit, sample)->0.attenuation == (Vector {
            x: Scalar { bits: ONE },
            y: Scalar { bits: ONE },
            z: Scalar { bits: ONE },
        }),
{
}

/// A metal scatters every ray that hits it, leaves of the light exactly what
/// its albedo says, and mirrors the ray about the normal: nothing of this
/// depends on what was drawn for the hit.
pub proof fn lemma_metal_mirrors(albedo: Vector, hit: Hit, sample: Sample, other: Sample)
    ensures
        (Material::Metal { albedo }).scattered(hit, sample) == Some(
            Scatter { attenuation: albedo, outgoing: Outgoing::Reflect },
        ),
        (Material::Metal { albedo }).scattered(hit, sample) == (Material::Metal {
            albedo,
        }).scattered(hit, other),
{
}

/// A ray that a dielectric bends is bent with the ratio of the side it came
/// from: one side's ratio from outside, the other's from inside.
pub proof fn lemma_refraction_keeps_its_side(ir: Scalar, hit: Hit, sample: Sample)
    requires
        (Material::Dielectric { ir }).scattered(hit, sample)->0.outgoing is Refract,
    ensures
        (Material::Dielectric { ir }).scattered(hit, sample)->0.outgoing->ratio == if hit.front_face {
            sample.entering.ratio
        } else {
            sample.leaving.ratio
        },
        !reflects(boundary_met(hit, sample), sample.draw),
{
}

/// A ray that meets a dielectric so that the refraction ratio times the sine
/// of its angle is at most one can always refract: it is reflected only by
/// the chance that the reflectance gives. Head on, the sine is zero.
pub proof fn lemma_refraction_is_possible(boundary: Fresnel, draw: Scalar)
    requires
        boundary.bend.at_most(Scalar { bits: ONE }),
    ensures
        reflects(boundary, draw) <==> draw.less(boundary.reflectance),
{
}

} // verus!
