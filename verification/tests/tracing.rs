use msdf_renderer::camera::RotationMatrix;
use msdf_renderer::geometry::{
    eval_sdf, isqrt, march, pixel_ndc, renderer, sphere_hit, PixelClass, Ray, TraceParams,
    GEO_ONE,
};

fn scenario() -> TraceParams {
    // camera three units behind the origin looking toward positive z,
    // a 90 degree field of view (tangent of half the angle is one)
    TraceParams {
        camera_pos: [0, 0, -3 * GEO_ONE],
        rotation: RotationMatrix::identity(),
        tan_half_fov: GEO_ONE,
        resolution: [800, 800],
        offset: [0, 0, 0],
        max_t: 50 * GEO_ONE,
    }
}

#[test]
fn isqrt_exact_values() {
    assert_eq!(isqrt(0), 0);
    assert_eq!(isqrt(1), 1);
    assert_eq!(isqrt(3), 1);
    assert_eq!(isqrt(4), 2);
    assert_eq!(isqrt(999_999), 999);
    assert_eq!(isqrt(1_000_000), 1000);
    assert_eq!(isqrt(u64::MAX), 4_294_967_295);
}

#[test]
fn distance_field_values() {
    // three units from the center: two units from the unit sphere
    assert_eq!(eval_sdf([0, 0, -3 * GEO_ONE], [0, 0, 0]), 2 * GEO_ONE);
    // on the surface
    assert_eq!(eval_sdf([0, 0, GEO_ONE], [0, 0, 0]), 0);
    // at the center: one unit inside
    assert_eq!(eval_sdf([0, 0, 0], [0, 0, 0]), -GEO_ONE);
    // the offset shifts the whole field
    assert_eq!(eval_sdf([5 * GEO_ONE, 0, 0], [2 * GEO_ONE, 0, 0]), 2 * GEO_ONE);
}

#[test]
fn ray_points_are_walked_linearly() {
    let ray = Ray {
        origin: [0, 0, -3 * GEO_ONE],
        max_t: 50 * GEO_ONE,
        direction: [0, 0, GEO_ONE],
    };
    assert_eq!(ray.at(2 * GEO_ONE), [0, 0, -GEO_ONE]);
    assert_eq!(ray.at(3 * GEO_ONE), [0, 0, 0]);
}

#[test]
fn central_pixel_ndc_is_zero() {
    assert_eq!(pixel_ndc(400, 800), 0);
    assert_eq!(pixel_ndc(0, 800), -GEO_ONE);
}

#[test]
fn aspect_ratio_is_fixed_point() {
    let mut p = scenario();
    p.resolution = [1600, 800];
    assert_eq!(p.aspect_ratio(), 2 * GEO_ONE);
}

#[test]
fn central_pixel_hits_the_unit_sphere() {
    let p = scenario();
    let marched = renderer(&p, 400, 400, 0, 128);
    assert_eq!(marched, PixelClass::Hit);
    // and the analytic intersection test agrees
    let ray = p.ray_from_ndc([0, 0]);
    assert!(sphere_hit(ray.origin, ray.direction, p.offset, ray.max_t));
}

#[test]
fn silhouette_outside_pixel_is_background() {
    let p = scenario();
    // the image corner looks far past the sphere
    let marched = renderer(&p, 0, 0, 0, 128);
    assert_eq!(marched, PixelClass::Background);
    let ray = p.ray_from_ndc([-GEO_ONE, -GEO_ONE]);
    assert!(!sphere_hit(ray.origin, ray.direction, p.offset, ray.max_t));
}

#[test]
fn march_matches_the_analytic_test_on_clear_pixels() {
    let p = scenario();
    for (x, y) in [(400, 400), (0, 0), (0, 400), (400, 0), (799, 799), (390, 410)] {
        let marched = renderer(&p, x, y, 0, 256);
        let ray = p.ray_from_ndc([pixel_ndc(x, 800), pixel_ndc(y, 800)]);
        let analytic = sphere_hit(ray.origin, ray.direction, p.offset, ray.max_t);
        match marched {
            PixelClass::Hit => assert!(analytic, "pixel {x},{y}"),
            PixelClass::Background => assert!(!analytic, "pixel {x},{y}"),
            PixelClass::Overrun => panic!("step budget exhausted at {x},{y}"),
        }
    }
}

#[test]
fn exhausted_step_budget_is_an_overrun() {
    let p = scenario();
    let ray = p.ray_from_ndc([0, 0]);
    assert_eq!(march(&ray, p.offset, 0, 0), PixelClass::Overrun);
}

#[test]
fn patched_offset_moves_the_silhouette() {
    let mut p = scenario();
    // pushing the sphere two units sideways clears the central pixel
    p.offset = [2 * GEO_ONE, 0, 0];
    assert_eq!(renderer(&p, 400, 400, 0, 128), PixelClass::Background);
    let ray = p.ray_from_ndc([0, 0]);
    assert!(!sphere_hit(ray.origin, ray.direction, p.offset, ray.max_t));
}
