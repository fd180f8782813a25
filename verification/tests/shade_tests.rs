use ray_worker::geom::{Ray, Sphere};
use ray_worker::scene::Scene;
use ray_worker::shade::{
    evaluate, shade, Config, ConfigError, EPSILON_BITS, LIGHT_X_BITS, LIGHT_Y_BITS, LIGHT_Z_BITS,
    SEVEN_TENTHS_BITS,
};
use ray_worker::vec::Vec3;
use ray_worker::wire::{
    advance, decode_u32_be, encode_frame, encode_u32_be, initial_request, Phase, ProtocolError,
    Request, Response, PROTOCOL_VERSION,
};

fn v(x: f32, y: f32, z: f32) -> Vec3 {
    Vec3::new(x.to_bits(), y.to_bits(), z.to_bits())
}

fn ray(ox: f32, oy: f32, oz: f32, dx: f32, dy: f32, dz: f32) -> Ray {
    Ray { origin: v(ox, oy, oz), direction: v(dx, dy, dz) }
}

fn sphere(cx: f32, cy: f32, cz: f32, r: f32) -> Sphere {
    Sphere { center: v(cx, cy, cz), radius: r.to_bits() }
}

fn config(fg: Vec<Vec3>, bg: Vec3) -> Config {
    Config::new(fg, bg, String::from("tester"), String::from("localhost:1234")).unwrap()
}

/// The lightness term for a surface normal, mirroring the shader's operation
/// order in machine arithmetic.
fn lightness(nx: f32, ny: f32, nz: f32) -> f32 {
    let lx = -4.0f32 / 9.0;
    let ly = 8.0f32 / 9.0;
    let lz = 1.0f32 / 9.0;
    -((lx * nx + ly * ny) + lz * nz)
}

#[test]
fn light_and_material_constants() {
    assert_eq!(LIGHT_X_BITS, (-4.0f32 / 9.0).to_bits());
    assert_eq!(LIGHT_Y_BITS, (8.0f32 / 9.0).to_bits());
    assert_eq!(LIGHT_Z_BITS, (1.0f32 / 9.0).to_bits());
    assert_eq!(EPSILON_BITS, 1e-6f32.to_bits());
    assert_eq!(SEVEN_TENTHS_BITS, 0.7f32.to_bits());
}

#[test]
fn empty_palette_is_rejected() {
    let r = Config::new(vec![], v(0.0, 0.0, 0.0), String::new(), String::new());
    assert!(matches!(r, Err(ConfigError::EmptyPalette)));
    let ok = Config::new(vec![v(1.0, 1.0, 1.0)], v(0.0, 0.0, 0.0), String::new(), String::new());
    assert!(ok.is_ok());
}

#[test]
fn miss_shades_to_background() {
    let cfg = config(vec![v(1.0, 1.0, 1.0)], v(0.0, 0.0, 0.0));
    let scene = Scene { frame: 0, spheres: vec![sphere(0.0, 0.0, 0.0, 0.5)] };
    let r = ray(5.0, 5.0, -2.0, 0.0, 0.0, 1.0);
    let o = shade(&r, &scene, &cfg, 1);
    assert!(!o.hit);
    assert_eq!(o.color, Some(v(0.0, 0.0, 0.0)));
}

#[test]
fn no_bounce_palette_ends() {
    // Two spheres, two palette entries: the gradient ends are hit exactly.
    let cfg = config(vec![v(1.0, 0.0, 0.0), v(0.0, 0.0, 1.0)], v(0.0, 0.0, 0.0));
    let scene = Scene {
        frame: 0,
        spheres: vec![sphere(0.0, 0.0, 0.0, 0.5), sphere(10.0, 0.0, 0.0, 0.5)],
    };
    let l = lightness(0.0, 0.0, -1.0);

    let o0 = shade(&ray(0.0, 0.0, -2.0, 0.0, 0.0, 1.0), &scene, &cfg, 0);
    assert!(o0.hit);
    assert_eq!(o0.color, Some(v(1.0 + l, 0.0 + l, 0.0 + l)));

    let o1 = shade(&ray(10.0, 0.0, -2.0, 0.0, 0.0, 1.0), &scene, &cfg, 0);
    assert!(o1.hit);
    assert_eq!(o1.color, Some(v(0.0 + l, 0.0 + l, 1.0 + l)));
}

#[test]
fn gradient_blends_between_entries() {
    // Three spheres, two entries: the middle sphere sits halfway.
    let c0 = (1.0f32, 0.0f32, 0.0f32);
    let c1 = (0.0f32, 0.0f32, 1.0f32);
    let cfg = config(vec![v(c0.0, c0.1, c0.2), v(c1.0, c1.1, c1.2)], v(0.0, 0.0, 0.0));
    let scene = Scene {
        frame: 0,
        spheres: vec![
            sphere(0.0, 0.0, 0.0, 0.5),
            sphere(10.0, 0.0, 0.0, 0.5),
            sphere(20.0, 0.0, 0.0, 0.5),
        ],
    };
    let o = shade(&ray(10.0, 0.0, -2.0, 0.0, 0.0, 1.0), &scene, &cfg, 0);
    assert!(o.hit);
    let f = 0.5f32;
    let l = lightness(0.0, 0.0, -1.0);
    let mix = |a: f32, b: f32| ((1.0 - f) * a + f * b) + l;
    assert_eq!(o.color, Some(v(mix(c0.0, c1.0), mix(c0.1, c1.1), mix(c0.2, c1.2))));
}

#[test]
fn single_entry_palette_is_flat() {
    let entry = v(0.25, 0.5, 0.75);
    let cfg = config(vec![entry], v(0.0, 0.0, 0.0));
    let scene = Scene {
        frame: 0,
        spheres: vec![sphere(0.0, 0.0, 0.0, 0.5), sphere(10.0, 0.0, 0.0, 0.5)],
    };
    let l = lightness(0.0, 0.0, -1.0);
    for r in [ray(0.0, 0.0, -2.0, 0.0, 0.0, 1.0), ray(10.0, 0.0, -2.0, 0.0, 0.0, 1.0)] {
        let o = shade(&r, &scene, &cfg, 0);
        assert!(o.hit);
        assert_eq!(o.color, Some(v(0.25 + l, 0.5 + l, 0.75 + l)));
    }
}

#[test]
fn reflection_changes_the_color() {
    // An oblique hit reflects some of the (bright) background into the
    // material, so one bounce shades differently from none.
    let cfg = config(vec![v(1.0, 0.0, 0.0)], v(10.0, 10.0, 10.0));
    let scene = Scene { frame: 0, spheres: vec![sphere(0.0, 0.0, 0.0, 0.5)] };
    let r = ray(-2.0, 0.3, 0.0, 1.0, 0.0, 0.0);
    let none = shade(&r, &scene, &cfg, 0);
    let one = shade(&r, &scene, &cfg, 1);
    assert!(none.hit && one.hit);
    assert_ne!(none.color, one.color);
}

#[test]
fn shading_is_deterministic() {
    let cfg = config(vec![v(1.0, 0.2, 0.4), v(0.1, 0.9, 0.3)], v(0.05, 0.05, 0.2));
    let scene = Scene {
        frame: 3,
        spheres: vec![sphere(0.0, 0.0, 0.0, 0.5), sphere(0.4, 0.2, 3.0, 1.0)],
    };
    let r = ray(-2.0, 0.3, 0.1, 1.0, 0.0, 0.0);
    let a = shade(&r, &scene, &cfg, 1);
    let b = shade(&r, &scene, &cfg, 1);
    assert_eq!(a, b);
}

#[test]
fn evaluate_keeps_order_and_length() {
    let cfg = config(vec![v(1.0, 0.0, 0.0), v(0.0, 0.0, 1.0)], v(0.0, 0.0, 0.0));
    let scene = Scene {
        frame: 0,
        spheres: vec![sphere(0.0, 0.0, 0.0, 0.5), sphere(10.0, 0.0, 0.0, 0.5)],
    };
    let rays = vec![
        ray(0.0, 0.0, -2.0, 0.0, 0.0, 1.0),
        ray(5.0, 5.0, -2.0, 0.0, 0.0, 1.0),
        ray(10.0, 0.0, -2.0, 0.0, 0.0, 1.0),
    ];
    let out = evaluate(&rays, &scene, &cfg);
    assert_eq!(out.len(), rays.len());
    for (j, r) in rays.iter().enumerate() {
        assert_eq!(out[j], shade(r, &scene, &cfg, 1));
    }
    assert!(out[0].hit);
    assert!(!out[1].hit);
    assert!(out[2].hit);
}

#[test]
fn evaluate_twice_is_identical() {
    let cfg = config(vec![v(0.9, 0.8, 0.7)], v(0.0, 0.1, 0.2));
    let scene = Scene {
        frame: 1,
        spheres: vec![sphere(0.0, 0.0, 0.0, 0.5), sphere(1.0, 1.0, 4.0, 0.7)],
    };
    let rays = vec![
        ray(-2.0, 0.3, 0.0, 1.0, 0.0, 0.0),
        ray(0.0, 0.0, -2.0, 0.0, 0.0, 1.0),
        ray(3.0, 3.0, 3.0, 0.0, 0.0, 1.0),
    ];
    assert_eq!(evaluate(&rays, &scene, &cfg), evaluate(&rays, &scene, &cfg));
}

#[test]
fn protocol_version_is_two() {
    assert_eq!(PROTOCOL_VERSION, 2);
}

#[test]
fn frame_encoding() {
    assert_eq!(encode_u32_be(0x01020304), vec![1, 2, 3, 4]);
    assert_eq!(decode_u32_be(1, 2, 3, 4), 0x01020304);
    assert_eq!(decode_u32_be(0, 0, 0, 2), 2);
    let framed = encode_frame(&vec![0xAA, 0xBB]).unwrap();
    assert_eq!(framed, vec![0, 0, 0, 2, 0xAA, 0xBB]);
    assert_eq!(encode_frame(&vec![]).unwrap(), vec![0, 0, 0, 0]);
}

#[test]
fn session_starts_with_the_name() {
    let cfg = config(vec![v(1.0, 1.0, 1.0)], v(0.0, 0.0, 0.0));
    match initial_request(&cfg) {
        Request::SetName(name) => assert_eq!(name, "tester"),
        _ => panic!("expected a SetName request"),
    }
}

#[test]
fn session_advances_through_phases() {
    let cfg = config(vec![v(1.0, 1.0, 1.0)], v(0.0, 0.0, 0.0));

    // The acknowledged name asks for the first batch.
    let (p, req) = advance(Phase::NameSent, Response::SetName, &cfg).unwrap();
    assert_eq!(p, Phase::BatchRequested);
    assert!(matches!(req, Request::ReserveRays));

    // A delivered batch is evaluated and submitted.
    let scene = Scene { frame: 0, spheres: vec![sphere(0.0, 0.0, 0.0, 0.5)] };
    let rays = vec![ray(0.0, 0.0, -2.0, 0.0, 0.0, 1.0), ray(5.0, 5.0, -2.0, 0.0, 0.0, 1.0)];
    let scene2 = Scene { frame: 0, spheres: vec![sphere(0.0, 0.0, 0.0, 0.5)] };
    let expected = evaluate(&rays, &scene2, &cfg);
    let (p, req) = advance(Phase::BatchRequested, Response::ReserveRays(rays, scene), &cfg)
        .unwrap();
    assert_eq!(p, Phase::ResultsSent);
    match req {
        Request::SubmitResults(out) => assert_eq!(out, expected),
        _ => panic!("expected a SubmitResults request"),
    }

    // The acknowledged submission asks for the next batch.
    let (p, req) = advance(Phase::ResultsSent, Response::SubmitResults, &cfg).unwrap();
    assert_eq!(p, Phase::BatchRequested);
    assert!(matches!(req, Request::ReserveRays));
}

#[test]
fn wrong_response_variant_is_fatal() {
    let cfg = config(vec![v(1.0, 1.0, 1.0)], v(0.0, 0.0, 0.0));
    let r = advance(Phase::NameSent, Response::SubmitResults, &cfg);
    assert_eq!(r.unwrap_err(), ProtocolError::UnexpectedResponse);
    let r = advance(Phase::BatchRequested, Response::SetName, &cfg);
    assert_eq!(r.unwrap_err(), ProtocolError::UnexpectedResponse);
    let r = advance(
        Phase::ResultsSent,
        Response::ReserveRays(vec![], Scene { frame: 0, spheres: vec![] }),
        &cfg,
    );
    assert_eq!(r.unwrap_err(), ProtocolError::UnexpectedResponse);
}
