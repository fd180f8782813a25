use ray_worker::geom::{Ray, Sphere};
use ray_worker::scene::Scene;
use ray_worker::vec::Vec3;

fn v(x: f32, y: f32, z: f32) -> Vec3 {
    Vec3::new(x.to_bits(), y.to_bits(), z.to_bits())
}

fn ray(ox: f32, oy: f32, oz: f32, dx: f32, dy: f32, dz: f32) -> Ray {
    Ray { origin: v(ox, oy, oz), direction: v(dx, dy, dz) }
}

fn sphere(cx: f32, cy: f32, cz: f32, r: f32) -> Sphere {
    Sphere { center: v(cx, cy, cz), radius: r.to_bits() }
}

#[test]
fn simple_intersection() {
    let r = ray(0.0, 0.0, -2.0, 0.0, 0.0, 1.0);
    let s = sphere(0.0, 0.0, 0.0, 0.5);
    assert!(r.intersects_sphere(&s));
}

#[test]
fn offset_intersection() {
    let r = ray(10.0, 5.0, -12.0, 0.0, 0.0, 1.0);
    let s = sphere(10.0, 5.0, 20.0, 0.5);
    assert!(r.intersects_sphere(&s));
}

#[test]
fn offset_miss() {
    let r = ray(11.0, 5.0, -12.0, 0.0, 0.0, 1.0);
    let s = sphere(10.0, 5.0, 20.0, 0.5);
    assert!(!r.intersects_sphere(&s));
}

#[test]
fn miss_behind() {
    let r = ray(0.0, 0.0, 1.0, 0.0, 0.0, 1.0);
    let s = sphere(0.0, 0.0, 0.0, 0.5);
    assert!(!r.intersects_sphere(&s));
}

#[test]
fn diagonal_intersection() {
    let r = ray(1.0, 2.0, -2.0, 3.0 / 5.0, 4.0 / 5.0, 0.0);
    let s = sphere(4.0, 6.7, -1.8, 0.5);
    assert!(r.intersects_sphere(&s));
}

#[test]
fn diagonal_miss() {
    let r = ray(1.0, 2.0, -2.0, 3.0 / 5.0, 4.0 / 5.0, 0.0);
    let s = sphere(4.0, 6.7, -1.6, 0.5);
    assert!(!r.intersects_sphere(&s));
}

#[test]
fn head_on_hit_record() {
    let r = ray(0.0, 0.0, -2.0, 0.0, 0.0, 1.0);
    let s = sphere(0.0, 0.0, 0.0, 0.5);
    let h = r.intersect(&s).unwrap();
    assert_eq!(h.distance, 1.5f32.to_bits());
    assert_eq!(h.position, v(0.0, 0.0, -0.5));
    assert_eq!(h.normal, v(0.0, 0.0, -1.0));
}

#[test]
fn tangential_graze_is_a_hit() {
    let r = ray(0.0, 0.0, -2.0, 0.0, 0.0, 1.0);
    let s = sphere(0.5, 0.0, 0.0, 0.5);
    let h = r.intersect(&s).unwrap();
    assert_eq!(h.distance, 2.0f32.to_bits());
}

#[test]
fn barely_wide_pass_misses() {
    // The closest approach is 0.5 + one part in a million: a miss.
    let r = ray(0.0, 0.500001, -2.0, 0.0, 0.0, 1.0);
    let s = sphere(0.0, 0.0, 0.0, 0.5);
    assert!(!r.intersects_sphere(&s));
}

#[test]
fn hit_lies_on_surface() {
    let r = ray(1.0, 2.0, -2.0, 3.0 / 5.0, 4.0 / 5.0, 0.0);
    let s = sphere(4.0, 6.7, -1.8, 0.5);
    let h = r.intersect(&s).unwrap();
    let px = f32::from_bits(h.position.x) - 4.0;
    let py = f32::from_bits(h.position.y) - 6.7;
    let pz = f32::from_bits(h.position.z) - -1.8;
    let dist = (px * px + py * py + pz * pz).sqrt();
    assert!((dist - 0.5).abs() <= 1e-4);
}

#[test]
fn normal_is_outward_unit() {
    let r = ray(1.0, 2.0, -2.0, 3.0 / 5.0, 4.0 / 5.0, 0.0);
    let s = sphere(4.0, 6.7, -1.8, 0.5);
    let h = r.intersect(&s).unwrap();
    let nx = f32::from_bits(h.normal.x);
    let ny = f32::from_bits(h.normal.y);
    let nz = f32::from_bits(h.normal.z);
    let len = (nx * nx + ny * ny + nz * nz).sqrt();
    assert!((len - 1.0).abs() <= 1e-5);
    let px = f32::from_bits(h.position.x) - 4.0;
    let py = f32::from_bits(h.position.y) - 6.7;
    let pz = f32::from_bits(h.position.z) - -1.8;
    assert!(nx * px + ny * py + nz * pz >= 0.0);
}

#[test]
fn closest_of_two_spheres() {
    let r = ray(0.0, 0.0, -2.0, 0.0, 0.0, 1.0);
    // The farther sphere comes first; the nearer one must win.
    let scene = Scene {
        frame: 0,
        spheres: vec![sphere(0.0, 0.0, 5.0, 0.5), sphere(0.0, 0.0, 0.0, 0.5)],
    };
    let (i, h) = scene.closest_hit(&r).unwrap();
    assert_eq!(i, 1);
    assert_eq!(h.distance, 1.5f32.to_bits());

    // In the other order the same sphere wins under its other index.
    let scene2 = Scene {
        frame: 0,
        spheres: vec![sphere(0.0, 0.0, 0.0, 0.5), sphere(0.0, 0.0, 5.0, 0.5)],
    };
    let (i2, h2) = scene2.closest_hit(&r).unwrap();
    assert_eq!(i2, 0);
    assert_eq!(h2.distance, 1.5f32.to_bits());
}

#[test]
fn tied_distances_keep_first_sphere() {
    let r = ray(0.0, 0.0, -2.0, 0.0, 0.0, 1.0);
    let scene = Scene {
        frame: 7,
        spheres: vec![sphere(0.0, 0.0, 0.0, 0.5), sphere(0.0, 0.0, 0.0, 0.5)],
    };
    let (i, _) = scene.closest_hit(&r).unwrap();
    assert_eq!(i, 0);
}

#[test]
fn empty_scene_has_no_hit() {
    let r = ray(0.0, 0.0, -2.0, 0.0, 0.0, 1.0);
    let scene = Scene { frame: 0, spheres: vec![] };
    assert!(scene.closest_hit(&r).is_none());
}
