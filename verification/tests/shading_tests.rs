use raytracer::color::Rgba;
use raytracer::material::Material;
use raytracer::ray_intersect::Intersect;
use raytracer::render::PixelBuffer;
use raytracer::scalar::Scalar;
use raytracer::shading::{
    answers_needed, cast_shadow, first_occluder, first_step, nearest_hit, nearest_index, trace_step, Step,
};
use raytracer::vec3::Vec3;

fn s(x: f32) -> Scalar {
    Scalar::from_bits(x.to_bits())
}

fn v(x: f32, y: f32, z: f32) -> Vec3 {
    Vec3::new(s(x), s(y), s(z))
}

fn num(x: Scalar) -> f32 {
    f32::from_bits(x.to_bits())
}

fn surface(alpha: f32, reflective: f32) -> Material {
    Material::new(v(0.9, 0.1, 0.1), s(10.0), [s(1.0), s(0.0), s(reflective), s(0.0)], s(1.0), s(alpha))
}

fn hit(distance: f32, alpha: f32, reflective: f32) -> Intersect {
    Intersect::hit(v(distance, 0.0, 0.0), v(0.0, 1.0, 0.0), s(distance), surface(alpha, reflective))
}

#[test]
fn nearest_of_nothing_is_a_miss() {
    assert_eq!(nearest_index(&vec![]), None);
    assert_eq!(nearest_hit(&vec![]), Intersect::empty());
    let misses = vec![Intersect::empty(), Intersect::empty()];
    assert_eq!(nearest_index(&misses), None);
    assert_eq!(nearest_hit(&misses), Intersect::empty());
}

#[test]
fn nearest_is_the_least_distance() {
    let hits = vec![hit(5.0, 1.0, 0.0), Intersect::empty(), hit(2.0, 1.0, 0.0), hit(3.0, 1.0, 0.0)];
    assert_eq!(nearest_index(&hits), Some(2));
    assert_eq!(nearest_hit(&hits), hits[2]);
}

#[test]
fn nearest_of_equals_is_the_first() {
    let hits = vec![hit(5.0, 1.0, 0.0), hit(2.0, 0.5, 0.0), hit(2.0, 1.0, 0.0), hit(0.0, 1.0, 0.0), hit(-0.0, 0.3, 0.0)];
    assert_eq!(nearest_index(&hits), Some(3));
    let hits = vec![hit(2.0, 0.5, 0.0), hit(2.0, 1.0, 0.0)];
    assert_eq!(nearest_index(&hits), Some(0));
}

#[test]
fn nearest_passes_by_what_is_out_of_reach() {
    // a hit at infinity, a hit at no number, and a miss that claims a distance
    let mut far = hit(f32::INFINITY, 1.0, 0.0);
    far.is_intersecting = true;
    let nowhere = hit(f32::NAN, 1.0, 0.0);
    let mut ghost = hit(1.0, 1.0, 0.0);
    ghost.is_intersecting = false;
    assert_eq!(nearest_index(&vec![far, nowhere, ghost]), None);
    assert_eq!(nearest_index(&vec![far, nowhere, ghost, hit(9.0, 1.0, 0.0)]), Some(3));
}

#[test]
fn shadow_is_none_in_plain_view() {
    assert_eq!(num(cast_shadow(&vec![], s(10.0))), 0.0);
    let hits = vec![Intersect::empty(), hit(10.0, 1.0, 0.0), hit(12.0, 1.0, 0.0)];
    assert_eq!(first_occluder(&hits, s(10.0)), None);
    assert_eq!(num(cast_shadow(&hits, s(10.0))), 0.0);
}

#[test]
fn shadow_is_full_behind_an_opaque_occluder() {
    let hits = vec![Intersect::empty(), hit(3.0, 1.0, 0.0)];
    assert_eq!(first_occluder(&hits, s(10.0)), Some(1));
    assert_eq!(num(cast_shadow(&hits, s(10.0))), 1.0);
    let hits = vec![hit(3.0, 0.85, 0.0)];
    assert_eq!(num(cast_shadow(&hits, s(10.0))), 1.0);
}

#[test]
fn shadow_is_partial_behind_a_translucent_occluder() {
    let hits = vec![hit(3.0, 0.75, 0.0)];
    assert_eq!(num(cast_shadow(&hits, s(10.0))), 0.4);
    let hits = vec![hit(3.0, 0.849, 0.0)];
    assert_eq!(num(cast_shadow(&hits, s(10.0))), 0.4);
    let hits = vec![hit(3.0, f32::NAN, 0.0)];
    assert_eq!(num(cast_shadow(&hits, s(10.0))), 0.4);
}

#[test]
fn shadow_is_that_of_the_first_occluder_in_the_scene() {
    // the translucent one comes first in the scene, though it is farther
    let hits = vec![hit(12.0, 1.0, 0.0), hit(5.0, 0.5, 0.0), hit(2.0, 1.0, 0.0)];
    assert_eq!(first_occluder(&hits, s(10.0)), Some(1));
    assert_eq!(num(cast_shadow(&hits, s(10.0))), 0.4);
    let hits = vec![hit(2.0, 1.0, 0.0), hit(5.0, 0.5, 0.0)];
    assert_eq!(num(cast_shadow(&hits, s(10.0))), 1.0);
}

#[test]
fn no_depth_left_is_sky_whatever_the_scene() {
    let scenes = vec![
        vec![],
        vec![Intersect::empty()],
        vec![hit(1.0, 1.0, 0.0)],
        vec![hit(1.0, 0.5, 0.8), hit(0.5, 1.0, 0.0)],
    ];
    for hits in &scenes {
        assert_eq!(trace_step(0, hits), Step::Sky);
        assert_eq!(trace_step(-1, hits), Step::Sky);
        assert_eq!(trace_step(i32::MIN, hits), Step::Sky);
    }
}

#[test]
fn a_ray_that_strikes_nothing_is_sky() {
    assert_eq!(trace_step(4, &vec![]), Step::Sky);
    assert_eq!(trace_step(4, &vec![Intersect::empty(), Intersect::empty()]), Step::Sky);
}

#[test]
fn an_opaque_surface_hides_what_is_behind() {
    let front = hit(1.0, 1.0, 0.0);
    let alone = trace_step(4, &vec![front]);
    let crowded = trace_step(4, &vec![hit(7.0, 1.0, 0.5), front, hit(3.0, 0.2, 0.0)]);
    let expected = Step::Surface { hit: front, reflect: false, pass_through: false, depth: 3 };
    assert_eq!(alone, expected);
    assert_eq!(crowded, expected);
}

#[test]
fn further_rays_follow_the_material() {
    let glass = hit(1.0, 0.75, 0.0);
    assert_eq!(
        trace_step(4, &vec![glass]),
        Step::Surface { hit: glass, reflect: false, pass_through: true, depth: 3 }
    );
    let mirror = hit(1.0, 1.0, 0.8);
    assert_eq!(
        trace_step(1, &vec![mirror]),
        Step::Surface { hit: mirror, reflect: true, pass_through: false, depth: 0 }
    );
    let both = hit(1.0, 0.5, 0.1);
    assert_eq!(
        trace_step(i32::MAX, &vec![both]),
        Step::Surface { hit: both, reflect: true, pass_through: true, depth: i32::MAX - 1 }
    );
    let odd = hit(1.0, f32::NAN, -0.5);
    assert_eq!(
        trace_step(2, &vec![odd]),
        Step::Surface { hit: odd, reflect: false, pass_through: false, depth: 1 }
    );
    let over = hit(1.0, 1.5, f32::NAN);
    assert_eq!(
        trace_step(2, &vec![over]),
        Step::Surface { hit: over, reflect: false, pass_through: false, depth: 1 }
    );
}

#[test]
fn pixel_buffer_starts_black() {
    let b = PixelBuffer::new(3, 2).unwrap();
    assert_eq!(b.width(), 3);
    assert_eq!(b.height(), 2);
    for y in 0..2 {
        for x in 0..3 {
            assert_eq!(b.pixel(x, y), Rgba { r: 0, g: 0, b: 0, a: 255 });
        }
    }
    assert_eq!(Rgba::black(), Rgba { r: 0, g: 0, b: 0, a: 255 });
    assert!(PixelBuffer::new(usize::MAX, 2).is_none());
    assert!(PixelBuffer::new(0, 0).is_some());
    assert!(PixelBuffer::new(0, 5).is_some());
}

#[test]
fn pixel_buffer_rows_do_not_disturb_each_other() {
    let mut b = PixelBuffer::new(3, 3).unwrap();
    let row = |k: u8| vec![Rgba { r: k, g: 1, b: 2, a: 255 }, Rgba { r: k, g: 3, b: 4, a: 255 }, Rgba { r: k, g: 5, b: 6, a: 255 }];
    b.put_row(2, &row(20));
    b.put_row(0, &row(10));
    assert_eq!(b.pixel(0, 0), Rgba { r: 10, g: 1, b: 2, a: 255 });
    assert_eq!(b.pixel(2, 0), Rgba { r: 10, g: 5, b: 6, a: 255 });
    assert_eq!(b.pixel(1, 1), Rgba::black());
    assert_eq!(b.pixel(0, 2), Rgba { r: 20, g: 1, b: 2, a: 255 });
    assert_eq!(b.pixel(1, 2), Rgba { r: 20, g: 3, b: 4, a: 255 });
    b.put_row(1, &row(15));
    assert_eq!(b.pixel(2, 0), Rgba { r: 10, g: 5, b: 6, a: 255 });
    assert_eq!(b.pixel(2, 1), Rgba { r: 15, g: 5, b: 6, a: 255 });
    assert_eq!(b.pixel(0, 2), Rgba { r: 20, g: 1, b: 2, a: 255 });
}

#[test]
fn a_ray_from_the_camera_has_four_levels() {
    let glass = hit(1.0, 0.75, 0.2);
    assert_eq!(
        first_step(&vec![glass]),
        Step::Surface { hit: glass, reflect: true, pass_through: true, depth: 3 }
    );
    assert_eq!(first_step(&vec![]), Step::Sky);
    assert_eq!(first_step(&vec![glass]), trace_step(4, &vec![glass]));
}

/// Follows the rays that the steps call for through a row of panes of
/// glass, and counts the surfaces that are shaded on the way.
fn surfaces_shaded(depth: i32, panes: usize) -> usize {
    let mut shaded = 0;
    let mut depth = depth;
    let mut left = panes;
    loop {
        let hits: Vec<Intersect> = (0..left).map(|k| hit(1.0 + k as f32, 0.5, 0.0)).collect();
        match trace_step(depth, &hits) {
            Step::Sky => return shaded,
            Step::Surface { pass_through, depth: next, .. } => {
                shaded += 1;
                assert!(pass_through);
                assert_eq!(next, depth - 1);
                depth = next;
                left -= 1;
            }
        }
    }
}

#[test]
fn the_depth_bounds_the_surfaces_behind_one_another() {
    assert_eq!(surfaces_shaded(4, 10), 4);
    assert_eq!(surfaces_shaded(4, 3), 3);
    assert_eq!(surfaces_shaded(1, 10), 1);
    assert_eq!(surfaces_shaded(0, 10), 0);
}

#[test]
fn answers_are_needed_while_levels_are_left() {
    assert!(answers_needed(4));
    assert!(answers_needed(1));
    assert!(answers_needed(i32::MAX));
    assert!(!answers_needed(0));
    assert!(!answers_needed(-1));
    assert!(!answers_needed(i32::MIN));
    // where none are needed, none change the step
    let crowd = vec![hit(1.0, 0.5, 0.5), hit(2.0, 1.0, 0.0)];
    for depth in [0, -3] {
        assert_eq!(trace_step(depth, &crowd), trace_step(depth, &vec![]));
    }
}

#[test]
fn a_row_is_read_back_from_any_picture() {
    let mut b = PixelBuffer::new(2, 3).unwrap();
    let first = vec![Rgba { r: 1, g: 2, b: 3, a: 4 }, Rgba { r: 5, g: 6, b: 7, a: 8 }];
    let second = vec![Rgba { r: 9, g: 9, b: 9, a: 9 }, Rgba { r: 8, g: 8, b: 8, a: 8 }];
    b.put_row(1, &first);
    b.put_row(2, &second);
    b.put_row(1, &second);
    b.put_row(0, &first);
    for x in 0..2 {
        assert_eq!(b.pixel(x, 0), first[x]);
        assert_eq!(b.pixel(x, 1), second[x]);
        assert_eq!(b.pixel(x, 2), second[x]);
    }
}
