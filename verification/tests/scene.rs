use pathtracer::object::{Frame, QuadCached};
use pathtracer::scalar::Scalar;
use pathtracer::scene::{
    collect_materials, create_camera, create_objects, resolve_rotation, tuple_to_vector, Camera,
    Defocus, Material,
    Object, Scene, Shape, MAX_RAY_BOUNCES, SAMPLES_PER_PIXEL,
};
use pathtracer::vector::{Quaternion, Vector};

fn s(x: f64) -> Scalar {
    Scalar::from_bits(x.to_bits())
}

fn t(x: f64, y: f64, z: f64) -> (Scalar, Scalar, Scalar) {
    (s(x), s(y), s(z))
}

fn v(x: f64, y: f64, z: f64) -> Vector {
    Vector::new(s(x), s(y), s(z))
}

fn number(x: Scalar) -> f64 {
    f64::from_bits(x.to_bits())
}

/// The data of a quad, as the caller calculates it.
fn cached(q: Vector, u: Vector, w: Vector) -> QuadCached {
    let n = |p: Vector| [number(p.x), number(p.y), number(p.z)];
    let (q, u, w) = (n(q), n(u), n(w));
    let c = [u[1] * w[2] - u[2] * w[1], u[2] * w[0] - u[0] * w[2], u[0] * w[1] - u[1] * w[0]];
    let cc = c[0] * c[0] + c[1] * c[1] + c[2] * c[2];
    let normal = [c[0] / cc.sqrt(), c[1] / cc.sqrt(), c[2] / cc.sqrt()];
    QuadCached {
        normal: v(normal[0], normal[1], normal[2]),
        d: s(normal[0] * q[0] + normal[1] * q[1] + normal[2] * q[2]),
        w: v(c[0] / cc, c[1] / cc, c[2] / cc),
    }
}

fn caches(frame: &Frame) -> [QuadCached; 6] {
    let faces = frame.list_faces();
    std::array::from_fn(|k| cached(faces[k].q, faces[k].u, faces[k].v))
}

fn bare_camera() -> Camera {
    Camera {
        image_dimensions: (640, 480),
        background_color: None,
        position: None,
        rotation: None,
        fov: s(70.0),
        defocus: None,
        samples_per_pixel: None,
    }
}

fn scene(camera: Camera, materials: Vec<Material>, objects: Vec<Object>) -> Scene {
    Scene { camera, materials, objects }
}

#[test]
fn tuple_to_vector_keeps_the_order() {
    assert_eq!(tuple_to_vector(t(1.0, 2.0, 3.0)), v(1.0, 2.0, 3.0));
}

#[test]
fn constants_of_the_defaults() {
    assert_eq!(SAMPLES_PER_PIXEL, 100);
    assert_eq!(MAX_RAY_BOUNCES, 50);
}

#[test]
fn create_camera_fills_in_what_is_left_out() {
    let camera = create_camera(&scene(bare_camera(), vec![], vec![]));
    assert_eq!(camera.image_width, 640);
    assert_eq!(camera.image_height, 480);
    assert_eq!(camera.position, v(0.0, 0.0, 0.0));
    assert_eq!(camera.rotation, Quaternion::identity());
    assert_eq!(camera.fov, s(70.0));
    assert_eq!(camera.focus_distance, s(1.0));
    assert_eq!(camera.defocus_angle, s(0.0));
    assert_eq!(camera.background_color, v(0.0, 0.0, 0.0));
    assert_eq!(camera.samples_per_pixel, 100);
    assert_eq!(camera.max_depth, 50);
}

#[test]
fn create_camera_keeps_what_is_given() {
    let rotation = Quaternion { i: s(0.0), j: s(1.0), k: s(0.0), w: s(0.0) };
    let described = Camera {
        image_dimensions: (32, 16),
        background_color: Some(t(0.1, 0.2, 0.3)),
        position: Some(t(1.0, 2.0, 3.0)),
        rotation: Some(rotation),
        fov: s(40.0),
        defocus: Some(Defocus { focus_distance: s(3.4), defocus_angle: s(0.6) }),
        samples_per_pixel: Some(8),
    };
    let camera = create_camera(&scene(described, vec![], vec![]));
    assert_eq!(camera.image_width, 32);
    assert_eq!(camera.image_height, 16);
    assert_eq!(camera.position, v(1.0, 2.0, 3.0));
    assert_eq!(camera.rotation, rotation);
    assert_eq!(camera.fov, s(40.0));
    assert_eq!(camera.focus_distance, s(3.4));
    assert_eq!(camera.defocus_angle, s(0.6));
    assert_eq!(camera.background_color, v(0.1, 0.2, 0.3));
    assert_eq!(camera.samples_per_pixel, 8);
    assert_eq!(camera.max_depth, 50);
}

#[test]
fn collect_materials_keeps_kind_and_order() {
    let described = vec![
        Material::Diffuse { albedo: t(0.1, 0.2, 0.3) },
        Material::Metal { albedo: t(0.4, 0.5, 0.6) },
        Material::Dielectric { ir: s(1.5) },
        Material::Light { color: t(7.0, 8.0, 9.0) },
    ];
    let got = collect_materials(&scene(bare_camera(), described, vec![]));
    assert_eq!(
        got,
        vec![
            pathtracer::material::Material::Diffuse { albedo: v(0.1, 0.2, 0.3) },
            pathtracer::material::Material::Metal { albedo: v(0.4, 0.5, 0.6) },
            pathtracer::material::Material::Dielectric { ir: s(1.5) },
            pathtracer::material::Material::Light { color: v(7.0, 8.0, 9.0) },
        ]
    );
    assert!(collect_materials(&scene(bare_camera(), vec![], vec![])).is_empty());
}

#[test]
fn material_resolve() {
    assert_eq!(
        Material::Light { color: t(1.0, 2.0, 3.0) }.resolve(),
        pathtracer::material::Material::Light { color: v(1.0, 2.0, 3.0) }
    );
}

#[test]
fn create_objects_takes_prisms_apart_in_place() {
    let frame = Frame {
        corner: v(-1.0, 0.0, -1.0),
        opposite: v(1.0, 2.0, 1.0),
        u: v(2.0, 0.0, 0.0),
        v: v(0.0, 2.0, 0.0),
        w: v(0.0, 0.0, 2.0),
    };
    let described = vec![
        Object { material: 2, shape: Shape::Sphere { center: t(0.0, 1.0, 2.0), radius: s(0.5) } },
        Object { material: 0, shape: Shape::Prism { frame, cached: caches(&frame) } },
        Object {
            material: 1,
            shape: Shape::Quad {
                q: t(0.0, 0.0, 0.0),
                u: t(1.0, 0.0, 0.0),
                v: t(0.0, 1.0, 0.0),
                cached: cached(v(0.0, 0.0, 0.0), v(1.0, 0.0, 0.0), v(0.0, 1.0, 0.0)),
            },
        },
    ];
    let got = create_objects(&scene(bare_camera(), vec![], described)).unwrap();
    let mut expected = vec![pathtracer::object::Object::sphere(v(0.0, 1.0, 2.0), s(0.5), 2)];
    expected.extend(pathtracer::object::Object::prism(&frame, &caches(&frame), 0).unwrap());
    expected.push(
        pathtracer::object::Object::quad(
            v(0.0, 0.0, 0.0),
            v(1.0, 0.0, 0.0),
            v(0.0, 1.0, 0.0),
            1,
            cached(v(0.0, 0.0, 0.0), v(1.0, 0.0, 0.0), v(0.0, 1.0, 0.0)),
        )
        .unwrap(),
    );
    assert_eq!(got.len(), 8);
    assert_eq!(got, expected);
}

#[test]
fn create_objects_refuses_edges_that_span_no_plane() {
    let sphere =
        Object { material: 0, shape: Shape::Sphere { center: t(0.0, 1.0, 2.0), radius: s(0.5) } };
    let line = Object {
        material: 0,
        shape: Shape::Quad {
            q: t(0.0, 0.0, 0.0),
            u: t(1.0, 0.0, 0.0),
            v: t(2.0, 0.0, 0.0),
            cached: cached(v(0.0, 0.0, 0.0), v(1.0, 0.0, 0.0), v(2.0, 0.0, 0.0)),
        },
    };
    let e = create_objects(&scene(bare_camera(), vec![], vec![sphere, line])).err().unwrap();
    assert_eq!(e.message, "quad edges span no plane");
    let flat = Frame {
        corner: v(-1.0, 0.0, 0.0),
        opposite: v(1.0, 2.0, 0.0),
        u: v(2.0, 0.0, 0.0),
        v: v(0.0, 2.0, 0.0),
        w: v(0.0, 0.0, 0.0),
    };
    let slab = Object { material: 0, shape: Shape::Prism { frame: flat, cached: caches(&flat) } };
    let e = create_objects(&scene(bare_camera(), vec![], vec![sphere, slab])).err().unwrap();
    assert_eq!(e.message, "quad edges span no plane");
    assert!(create_objects(&scene(bare_camera(), vec![], vec![sphere])).is_ok());
}

#[test]
fn create_objects_of_an_empty_scene() {
    assert!(create_objects(&scene(bare_camera(), vec![], vec![])).unwrap().is_empty());
}

#[test]
fn create_objects_of_two_prisms() {
    let frame = |k: f64| Frame {
        corner: v(k, 0.0, 0.0),
        opposite: v(k + 1.0, 1.0, 1.0),
        u: v(1.0, 0.0, 0.0),
        v: v(0.0, 1.0, 0.0),
        w: v(0.0, 0.0, 1.0),
    };
    let described = vec![
        Object { material: 0, shape: Shape::Prism { frame: frame(0.0), cached: caches(&frame(0.0)) } },
        Object { material: 1, shape: Shape::Prism { frame: frame(5.0), cached: caches(&frame(5.0)) } },
    ];
    let got = create_objects(&scene(bare_camera(), vec![], described)).unwrap();
    assert_eq!(got.len(), 12);
    let first = pathtracer::object::Object::prism(&frame(0.0), &caches(&frame(0.0)), 0).unwrap();
    let second = pathtracer::object::Object::prism(&frame(5.0), &caches(&frame(5.0)), 1).unwrap();
    assert_eq!(&got[..6], first.as_slice());
    assert_eq!(&got[6..], second.as_slice());
}

#[test]
fn rotation_that_is_not_named_turns_nothing() {
    assert_eq!(resolve_rotation(None), Quaternion::identity());
    assert_eq!(resolve_rotation(None), Quaternion { i: s(0.0), j: s(0.0), k: s(0.0), w: s(1.0) });
    let named = Quaternion { i: s(0.0), j: s(1.0), k: s(0.0), w: s(0.0) };
    assert_eq!(resolve_rotation(Some(named)), named);
    assert_eq!(resolve_rotation(Some(Quaternion::identity())), Quaternion::identity());
}
