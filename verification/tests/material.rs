use pathtracer::material::{Fresnel, Material, Outgoing, Sample, Scatter};
use pathtracer::object::Hit;
use pathtracer::scalar::Scalar;
use pathtracer::vector::Vector;

fn s(x: f64) -> Scalar {
    Scalar::from_bits(x.to_bits())
}

fn f(x: Scalar) -> f64 {
    f64::from_bits(x.to_bits())
}

fn v(x: f64, y: f64, z: f64) -> Vector {
    Vector::new(s(x), s(y), s(z))
}

fn hit(front_face: bool) -> Hit {
    Hit { p: v(1.0, 2.0, 3.0), normal: v(0.0, 1.0, 0.0), t: s(2.0), front_face, material: 0 }
}

/// A boundary whose ratio is 0.75 from whichever side it is met.
fn boundary(bend: f64, reflectance: f64) -> Fresnel {
    Fresnel { ratio: s(0.75), bend: s(bend), reflectance: s(reflectance) }
}

fn sample(lambert: Vector) -> Sample {
    Sample { lambert, entering: boundary(0.0, 0.0), leaving: boundary(0.0, 0.0), draw: s(0.5) }
}

/// Schlick's approximation, as the caller computes it.
fn reflectance(cosine: f64, ratio: f64) -> f64 {
    let mut r0 = (1.0 - ratio) / (1.0 + ratio);
    r0 *= r0;
    r0 + (1.0 - r0) * (1.0 - cosine).powi(5)
}

fn measure(ratio: f64, cos_theta: f64) -> Fresnel {
    let sin_theta = (1.0 - cos_theta * cos_theta).sqrt();
    Fresnel {
        ratio: s(ratio),
        bend: s(ratio * sin_theta),
        reflectance: s(reflectance(cos_theta, ratio)),
    }
}

#[test]
fn constructors_build_their_kind() {
    assert_eq!(
        Material::diffuse(s(0.1), s(0.2), s(0.3)),
        Material::Diffuse { albedo: v(0.1, 0.2, 0.3) }
    );
    assert_eq!(Material::metal(s(0.1), s(0.2), s(0.3)), Material::Metal { albedo: v(0.1, 0.2, 0.3) });
    assert_eq!(Material::dielectric(s(1.5)), Material::Dielectric { ir: s(1.5) });
}

#[test]
fn diffuse_scatters_along_the_sampled_direction() {
    let material = Material::diffuse(s(0.5), s(0.25), s(0.125));
    let got = material.scatter(&hit(true), &sample(v(0.3, 1.2, -0.4)));
    assert_eq!(
        got,
        Some(Scatter {
            attenuation: v(0.5, 0.25, 0.125),
            outgoing: Outgoing::Along(v(0.3, 1.2, -0.4)),
        })
    );
}

#[test]
fn diffuse_falls_back_to_the_normal_when_the_direction_vanishes() {
    let material = Material::diffuse(s(0.5), s(0.25), s(0.125));
    let got = material.scatter(&hit(true), &sample(v(1e-9, -1e-9, 0.0))).unwrap();
    assert_eq!(got.outgoing, Outgoing::Along(hit(true).normal));
    assert_eq!(got.attenuation, v(0.5, 0.25, 0.125));
    let got = material.scatter(&hit(false), &sample(v(1e-9, 1e-8, 0.0))).unwrap();
    assert_eq!(got.outgoing, Outgoing::Along(v(1e-9, 1e-8, 0.0)));
}

#[test]
fn metal_reflects_and_keeps_its_albedo() {
    let material = Material::metal(s(0.8), s(0.6), s(0.2));
    for front in [true, false] {
        let got = material.scatter(&hit(front), &sample(v(9.0, 9.0, 9.0)));
        assert_eq!(
            got,
            Some(Scatter { attenuation: v(0.8, 0.6, 0.2), outgoing: Outgoing::Reflect })
        );
    }
}

#[test]
fn metal_reflection_has_equal_angles_about_the_normal() {
    // The rule that `Outgoing::Reflect` names, on the caller's numbers.
    let normal = [0.0, 1.0, 0.0];
    let incoming: [f64; 3] = [3.0, -4.0, 12.0];
    let length = (incoming[0] * incoming[0] + incoming[1] * incoming[1] + incoming[2] * incoming[2]).sqrt();
    let unit = [incoming[0] / length, incoming[1] / length, incoming[2] / length];
    let d = unit[0] * normal[0] + unit[1] * normal[1] + unit[2] * normal[2];
    let reflected =
        [unit[0] - 2.0 * d * normal[0], unit[1] - 2.0 * d * normal[1], unit[2] - 2.0 * d * normal[2]];
    let out = reflected[0] * normal[0] + reflected[1] * normal[1] + reflected[2] * normal[2];
    assert_eq!(out, -d);
    let size = reflected[0] * reflected[0] + reflected[1] * reflected[1] + reflected[2] * reflected[2];
    assert!((size - 1.0).abs() < 1e-12);
    let material = Material::metal(s(0.8), s(0.6), s(0.2));
    let got = material.scatter(&hit(true), &sample(Vector::zeros())).unwrap();
    assert_eq!(got.outgoing, Outgoing::Reflect);
    assert_eq!([f(got.attenuation.x), f(got.attenuation.y), f(got.attenuation.z)], [0.8, 0.6, 0.2]);
}

#[test]
fn dielectric_never_tints() {
    let material = Material::dielectric(s(1.5));
    for front in [true, false] {
        for draw in [0.0, 0.5, 0.999] {
            let mut given = sample(Vector::zeros());
            given.draw = s(draw);
            given.entering = boundary(0.3, 0.5);
            given.leaving = boundary(1.3, 0.5);
            let got = material.scatter(&hit(front), &given).unwrap();
            assert_eq!(got.attenuation, v(1.0, 1.0, 1.0));
        }
    }
}

#[test]
fn dielectric_head_on_never_reflects_in_total() {
    // An index of 1.5, met head on from outside: the cosine is one, the sine zero.
    let material = Material::dielectric(s(1.5));
    let mut given = sample(Vector::zeros());
    given.entering = measure(1.0 / 1.5, 1.0);
    given.leaving = measure(1.5, 1.0);
    assert_eq!(f(given.entering.bend), 0.0);
    assert!((f(given.entering.reflectance) - 0.04).abs() < 1e-12);
    // Every draw at or above the reflectance refracts, whichever side is met.
    for draw in [0.05, 0.5, 0.999] {
        given.draw = s(draw);
        for front in [true, false] {
            let got = material.scatter(&hit(front), &given).unwrap();
            let ratio = if front { 1.0 / 1.5 } else { 1.5 };
            assert_eq!(got.outgoing, Outgoing::Refract { ratio: s(ratio) });
        }
    }
    // A draw below the reflectance reflects: by chance, not for want of a refracted ray.
    given.draw = s(0.01);
    assert_eq!(material.scatter(&hit(true), &given).unwrap().outgoing, Outgoing::Reflect);
}

#[test]
fn dielectric_reflects_in_total_beyond_the_critical_angle() {
    let material = Material::dielectric(s(1.5));
    let mut given = sample(Vector::zeros());
    // From inside at a flat angle: 1.5 times the sine is above one.
    given.leaving = measure(1.5, 0.5);
    given.entering = measure(1.0 / 1.5, 0.5);
    assert!(f(given.leaving.bend) > 1.0);
    given.draw = s(0.999);
    assert_eq!(material.scatter(&hit(false), &given).unwrap().outgoing, Outgoing::Reflect);
    // The same angle from outside can refract.
    assert_eq!(
        material.scatter(&hit(true), &given).unwrap().outgoing,
        Outgoing::Refract { ratio: s(1.0 / 1.5) }
    );
}

#[test]
fn dielectric_picks_the_boundary_by_the_side() {
    let material = Material::dielectric(s(1.5));
    let mut given = sample(Vector::zeros());
    given.entering = Fresnel { ratio: s(1.0 / 1.5), bend: s(0.2), reflectance: s(0.9) };
    given.leaving = Fresnel { ratio: s(1.5), bend: s(0.2), reflectance: s(0.1) };
    given.draw = s(0.5);
    assert_eq!(material.scatter(&hit(true), &given).unwrap().outgoing, Outgoing::Reflect);
    assert_eq!(
        material.scatter(&hit(false), &given).unwrap().outgoing,
        Outgoing::Refract { ratio: s(1.5) }
    );
    // With the chances the other way round, the ray from outside is bent, by the other ratio.
    given.entering.reflectance = s(0.1);
    given.leaving.reflectance = s(0.9);
    assert_eq!(
        material.scatter(&hit(true), &given).unwrap().outgoing,
        Outgoing::Refract { ratio: s(1.0 / 1.5) }
    );
    assert_eq!(material.scatter(&hit(false), &given).unwrap().outgoing, Outgoing::Reflect);
}

#[test]
fn dielectric_bend_of_exactly_one_can_refract() {
    let material = Material::dielectric(s(1.5));
    let mut given = sample(Vector::zeros());
    given.entering = boundary(1.0, 0.0);
    given.draw = s(0.0);
    assert_eq!(
        material.scatter(&hit(true), &given).unwrap().outgoing,
        Outgoing::Refract { ratio: s(0.75) }
    );
    given.entering = boundary(1.0000000000000002, 0.0);
    assert_eq!(material.scatter(&hit(true), &given).unwrap().outgoing, Outgoing::Reflect);
    given.entering = boundary(f64::NAN, 0.0);
    assert_eq!(
        material.scatter(&hit(true), &given).unwrap().outgoing,
        Outgoing::Refract { ratio: s(0.75) }
    );
}

#[test]
fn dielectric_draw_equal_to_the_reflectance_refracts() {
    let material = Material::dielectric(s(1.5));
    let mut given = sample(Vector::zeros());
    given.entering = boundary(0.0, 0.25);
    given.draw = s(0.25);
    assert_eq!(
        material.scatter(&hit(true), &given).unwrap().outgoing,
        Outgoing::Refract { ratio: s(0.75) }
    );
    given.draw = s(0.24999999999999997);
    assert_eq!(material.scatter(&hit(true), &given).unwrap().outgoing, Outgoing::Reflect);
}

#[test]
fn light_does_not_scatter() {
    let material = Material::Light { color: v(4.0, 4.0, 4.0) };
    assert_eq!(material.scatter(&hit(true), &sample(v(1.0, 1.0, 1.0))), None);
    assert_eq!(material.scatter(&hit(false), &sample(v(1.0, 1.0, 1.0))), None);
}

#[test]
fn only_a_light_emits() {
    assert_eq!(Material::Light { color: v(4.0, 3.0, 2.0) }.emit(), v(4.0, 3.0, 2.0));
    assert_eq!(Material::diffuse(s(0.5), s(0.5), s(0.5)).emit(), v(0.0, 0.0, 0.0));
    assert_eq!(Material::metal(s(0.5), s(0.5), s(0.5)).emit(), v(0.0, 0.0, 0.0));
    assert_eq!(Material::dielectric(s(1.5)).emit(), v(0.0, 0.0, 0.0));
}
