use raytracer::color::Rgba;
use raytracer::cube::{Cube, FaceOffsets, Quotients};
use raytracer::material::{pixel_of_scaled, Material};
use raytracer::ray_intersect::Intersect;
use raytracer::render::PixelBuffer;
use raytracer::scalar::Scalar;
use raytracer::shading::{answers_needed, cast_shadow, first_step, trace_step, Step};
use raytracer::vec3::Vec3;

type V = [f32; 3];

fn s(x: f32) -> Scalar {
    Scalar::from_bits(x.to_bits())
}

fn num(x: Scalar) -> f32 {
    f32::from_bits(x.to_bits())
}

fn pack(a: V) -> Vec3 {
    Vec3::new(s(a[0]), s(a[1]), s(a[2]))
}

fn unpack(a: Vec3) -> V {
    [num(a.x), num(a.y), num(a.z)]
}

fn add(a: V, b: V) -> V {
    [a[0] + b[0], a[1] + b[1], a[2] + b[2]]
}

fn sub(a: V, b: V) -> V {
    [a[0] - b[0], a[1] - b[1], a[2] - b[2]]
}

fn scale(a: V, k: f32) -> V {
    [a[0] * k, a[1] * k, a[2] * k]
}

fn dot(a: V, b: V) -> f32 {
    a[0] * b[0] + a[1] * b[1] + a[2] * b[2]
}

fn length(a: V) -> f32 {
    dot(a, a).sqrt()
}

fn unit(a: V) -> V {
    scale(a, 1.0 / length(a))
}

fn sky(dir: V) -> V {
    let t = 0.5 * (dir[1] + 1.0);
    add(scale([0.85, 0.90, 0.75], 1.0 - t), scale([0.60, 0.80, 1.00], t))
}

struct Light {
    position: V,
    intensity: f32,
}

fn answer(cube: &Cube, o: V, d: V) -> Intersect {
    let (min, max) = (unpack(cube.min), unpack(cube.max));
    let q = Quotients {
        lo: pack([(min[0] - o[0]) / d[0], (min[1] - o[1]) / d[1], (min[2] - o[2]) / d[2]]),
        hi: pack([(max[0] - o[0]) / d[0], (max[1] - o[1]) / d[1], (max[2] - o[2]) / d[2]]),
    };
    let t = cube.hit_distance(&pack(o), &pack(d), &q);
    let p = match t {
        Some(t) => add(o, scale(d, num(t))),
        None => [0.0; 3],
    };
    let off = FaceOffsets {
        x_min: s(p[0] - min[0]),
        x_max: s(p[0] - max[0]),
        y_min: s(p[1] - min[1]),
        y_max: s(p[1] - max[1]),
        z_min: s(p[2] - min[2]),
    };
    cube.answer(t, pack(p), &off)
}

fn answers(scene: &[Cube], o: V, d: V) -> Vec<Intersect> {
    scene.iter().map(|c| answer(c, o, d)).collect()
}

fn shadow(hit: &Intersect, light: &Light, scene: &[Cube]) -> f32 {
    let point = unpack(hit.point);
    let to_light = sub(light.position, point);
    let origin = add(point, scale(unpack(hit.normal), 1e-4));
    num(cast_shadow(&answers(scene, origin, unit(to_light)), s(length(to_light))))
}

fn colour_of(o: V, d: V, scene: &[Cube], light: &Light, step: Step) -> V {
    let (hit, reflect, pass_through, depth) = match step {
        Step::Sky => return sky(d),
        Step::Surface { hit, reflect, pass_through, depth } => (hit, reflect, pass_through, depth),
    };
    let _ = o;
    let point = unpack(hit.point);
    let normal = unpack(hit.normal);
    let surface = unpack(hit.material.diffuse);
    let kd = num(hit.material.albedo[0]);
    let ks = num(hit.material.albedo[1]);
    let kr = num(hit.material.albedo[2]);

    let l = unit(sub(light.position, point));
    let ndotl = num(s(dot(normal, l)).max(Scalar::zero()));
    let shade = shadow(&hit, light, scene);
    let diffuse = scale(scale(surface, ndotl * light.intensity * (1.0 - shade)), kd);

    let h = unit(add(l, unit(scale(d, -1.0))));
    let spec = ks * light.intensity * num(s(dot(h, normal)).max(Scalar::zero())).powf(num(hit.material.specular));

    let up = num(s(normal[1]).clamp(Scalar::zero(), Scalar::one()));
    let around = add(scale([0.30, 0.25, 0.20], 1.0 - up), scale([0.60, 0.80, 1.00], up));
    let ambient = scale(scale([surface[0] * around[0], surface[1] * around[1], surface[2] * around[2]], 0.3), kd);

    let mut colour = add(add(diffuse, ambient), [spec, spec, spec]);
    if reflect {
        let rdir = unit(sub(d, scale(normal, 2.0 * dot(d, normal))));
        let ro = add(point, scale(rdir, 1e-3));
        let rc = colour_of(ro, rdir, scene, light, further_step(depth, ro, rdir, scene));
        colour = add(scale(colour, 1.0 - kr), scale(rc, kr));
    }
    if pass_through {
        let bo = add(point, scale(d, 1e-3));
        let behind = colour_of(bo, d, scene, light, further_step(depth, bo, d, scene));
        let a = num(hit.material.alpha.clamp(Scalar::zero(), Scalar::one()));
        return add(scale(colour, a), scale(behind, 1.0 - a));
    }
    colour
}

fn cast_ray(o: V, d: V, scene: &[Cube], light: &Light) -> V {
    colour_of(o, d, scene, light, first_step(&answers(scene, o, d)))
}

/// The step for a further ray; the objects are asked only where they have a
/// say.
fn further_step(depth: i32, o: V, d: V, scene: &[Cube]) -> Step {
    let hits = if answers_needed(depth) { answers(scene, o, d) } else { Vec::new() };
    trace_step(depth, &hits)
}

fn red_box() -> Cube {
    let red = Material::new(pack([0.9, 0.1, 0.1]), s(10.0), [s(1.0), s(0.0), s(0.0), s(0.0)], s(1.0), s(1.0));
    Cube::new(pack([-1.0, -1.0, -1.0]), pack([1.0, 1.0, 1.0]), red)
}

fn brightness(c: V) -> f32 {
    c[0] + c[1] + c[2]
}

#[test]
fn red_box_is_bright_towards_the_light_and_dark_away_from_it() {
    let scene = [red_box()];
    let light = Light { position: [0.0, 0.0, 10.0], intensity: 1.2 };

    // the face towards the light, seen head on
    let lit = cast_ray([0.0, 0.0, 5.0], [0.0, 0.0, -1.0], &scene, &light);
    // the faces that look away from the light
    let side = cast_ray([5.0, 0.0, 0.0], [-1.0, 0.0, 0.0], &scene, &light);
    let back = cast_ray([0.0, 0.0, -5.0], [0.0, 0.0, 1.0], &scene, &light);
    let below = cast_ray([0.0, -5.0, 0.0], [0.0, 1.0, 0.0], &scene, &light);

    // towards the light: full diffuse term and the ambient of a wall
    let ambient = [0.9 * 0.30 * 0.3, 0.1 * 0.25 * 0.3, 0.1 * 0.20 * 0.3];
    assert_eq!(lit, add(add(scale(scale([0.9, 0.1, 0.1], 1.2), 1.0), scale(ambient, 1.0)), [0.0; 3]));
    // away from the light: the ambient alone
    assert_eq!(side, add(add(scale(scale([0.9, 0.1, 0.1], 0.0), 1.0), scale(ambient, 1.0)), [0.0; 3]));
    assert_eq!(back, side);
    assert_eq!(below, side);

    for dark in [side, back, below] {
        assert!(brightness(dark) < brightness(lit));
        for k in 0..3 {
            assert!(dark[k] < lit[k]);
        }
    }
    // the box is red
    assert!(lit[0] > lit[1] && lit[0] > lit[2]);
}

#[test]
fn background_is_the_sky_gradient() {
    let scene = [red_box()];
    let light = Light { position: [0.0, 0.0, 10.0], intensity: 1.2 };
    for d in [[0.0f32, 1.0, 0.0], [0.0, -1.0, 0.0], [0.6, 0.8, 0.0], [0.0, 0.6, -0.8], [1.0, 0.0, 0.0]] {
        let o = [0.0, 3.0, 5.0];
        let seen = cast_ray(o, d, &scene, &light);
        let t = 0.5 * (d[1] + 1.0);
        let want = [
            0.85 * (1.0 - t) + 0.60 * t,
            0.90 * (1.0 - t) + 0.80 * t,
            0.75 * (1.0 - t) + 1.00 * t,
        ];
        assert_eq!(seen, want, "{d:?}");
    }
    assert_eq!(cast_ray([0.0, 3.0, 5.0], [0.0, 1.0, 0.0], &scene, &light), [0.60, 0.80, 1.00]);
    assert_eq!(cast_ray([0.0, 3.0, 5.0], [0.0, -1.0, 0.0], &scene, &light), [0.85, 0.90, 0.75]);
}

#[test]
fn a_box_in_the_way_casts_its_shadow() {
    let floor = Cube::new(pack([-5.0, -2.0, -5.0]), pack([5.0, -1.5, 5.0]), red_box().material);
    let light = Light { position: [0.0, 10.0, 0.0], intensity: 1.2 };
    let open = [floor];
    let covered = [floor, red_box()];
    // a point of the floor right under the box, seen from the side
    let o = [0.0, -1.0, 4.0];
    let d = unit([0.0, -0.5, -4.0]);
    let in_light = cast_ray(o, d, &open, &light);
    let in_shadow = cast_ray(o, d, &covered, &light);
    assert!(brightness(in_shadow) < brightness(in_light));
    // in full shadow the ambient of a floor is all that is left
    let ambient = [0.9 * 0.60 * 0.3, 0.1 * 0.80 * 0.3, 0.1 * 1.00 * 0.3];
    assert_eq!(in_shadow, add(add([0.0; 3], ambient), [0.0; 3]));
}

#[test]
fn glass_lets_the_sky_show_through() {
    let glass = Material::new(pack([0.9, 0.1, 0.1]), s(10.0), [s(1.0), s(0.0), s(0.0), s(0.0)], s(1.0), s(0.5));
    let pane = Cube::new(pack([-1.0, -1.0, -1.0]), pack([1.0, 1.0, 1.0]), glass);
    let opaque = red_box();
    let light = Light { position: [0.0, 0.0, 10.0], intensity: 1.2 };
    let o = [0.0, 0.0, 5.0];
    let d = [0.0, 0.0, -1.0];
    let through = cast_ray(o, d, &[pane], &light);
    let solid = cast_ray(o, d, &[opaque], &light);
    assert!(through != solid);
    // what is behind an opaque box has no part in its colour
    let far = Cube::new(pack([-9.0, -9.0, -30.0]), pack([9.0, 9.0, -20.0]), glass);
    assert_eq!(cast_ray(o, d, &[opaque, far], &light), solid);
    assert_eq!(cast_ray(o, d, &[far, opaque], &light), solid);
    // but it shows through glass
    assert!(cast_ray(o, d, &[pane, far], &light) != through);
}

#[test]
fn a_frame_is_stored_row_by_row() {
    let scene = [red_box()];
    let light = Light { position: [0.0, 0.0, 10.0], intensity: 1.2 };
    let (w, h) = (8usize, 6usize);
    let mut frame = PixelBuffer::new(w, h).unwrap();
    let aspect = w as f32 / h as f32;
    let tan = (std::f32::consts::PI / 6.0).tan();
    // rows in an order of their own, as workers may finish them
    for y in [5usize, 0, 3, 1, 4, 2] {
        let row: Vec<Rgba> = (0..w)
            .map(|x| {
                let sx = (2.0 * x as f32) / w as f32 - 1.0;
                let sy = -(2.0 * y as f32) / h as f32 + 1.0;
                let d = unit([sx * aspect * tan, sy * tan, -1.0]);
                let c = cast_ray([0.0, 0.0, 5.0], d, &scene, &light);
                pixel_of_scaled(pack(scale(c, 255.0)), s(1.0 * 255.0))
            })
            .collect();
        frame.put_row(y, &row);
    }
    // the middle of the picture shows the lit face of the box
    assert_eq!(frame.pixel(4, 3), Rgba { r: 255, g: 32, b: 32, a: 255 });
    // the corners show the sky
    let corner = frame.pixel(0, 0);
    assert!(corner.b > corner.r && corner.a == 255);
    assert_eq!(frame.pixel(1, 0), frame.pixel(7, 0));
    assert!(frame.pixel(0, 5) != frame.pixel(0, 0));
}
