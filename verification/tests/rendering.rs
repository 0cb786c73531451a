//! Picture buffers, the raster loop, and the demonstration scene.

use rt::color::Color;
use rt::fixed::FX_ONE;
use rt::render::thread_function;
use rt::render::Picture;
use rt::scene::Object;
use rt::scene::Scene;
use rt::scene::Surface;
use rt::vector::Point;

const S: i64 = FX_ONE;

#[test]
fn picture_new_is_black_grid_of_requested_size() {
    let p = Picture::new((3, 2));
    assert_eq!(p.size, (3, 2));
    assert_eq!(p.position, Point(0, 0, -199 * S));
    assert_eq!(p.data.len(), 2);
    for row in &p.data {
        assert_eq!(row.len(), 3);
        for cell in row {
            assert_eq!(*cell, Color(0, 0, 0));
        }
    }
}

#[test]
fn rendering_twice_is_bit_identical() {
    let scene = Scene::new(7);
    let mut a = Picture::new((4, 3));
    let mut b = Picture::new((4, 3));
    scene.generate_picture(&mut a, 3);
    scene.generate_picture(&mut b, 3);
    assert_eq!(a.data, b.data);
    assert_eq!(a.size, b.size);
}

#[test]
fn render_overwrites_every_cell_independently_of_old_content() {
    let scene = Scene::new(0);
    let mut fresh = Picture::new((3, 3));
    let mut stale = Picture::new((3, 3));
    for row in stale.data.iter_mut() {
        for cell in row.iter_mut() {
            *cell = Color(S, S, S);
        }
    }
    scene.generate_picture(&mut fresh, 2);
    scene.generate_picture(&mut stale, 2);
    assert_eq!(fresh.data, stale.data);
}

#[test]
fn center_pixel_sees_the_central_light_plane() {
    // A single light plane ahead of the camera: the central pixel's ray
    // runs straight down +z from (0, 0, -199) and hits it at 249 units.
    let scene = Scene {
        objects: vec![Object::Plane {
            center: Point::new(0, 0, 50 * S),
            normal: Point::new(0, 0, -S),
            surface: Surface::Light { color: Color(S, S, S) },
        }],
    };
    let mut p = Picture::new((3, 3));
    scene.generate_picture(&mut p, 5);
    let direct = scene.bounce(
        scene.calculate(&Point::new(0, 0, S), &Point::new(0, 0, -199 * S)),
        5,
    );
    assert_eq!(p.data[1][1], direct);
    assert_ne!(direct, Color(0, 0, 0));
}

#[test]
fn render_accepts_single_row_picture() {
    // Height 1 is a legal picture: one row, every cell written, and the
    // lone row agrees with the top row's pixel formula (yrange is 0, so
    // the single row looks straight along the horizontal plane).
    let scene = Scene::new(0);
    let mut p = Picture::new((4, 1));
    scene.generate_picture(&mut p, 2);
    assert_eq!(p.data.len(), 1);
    assert_eq!(p.data[0].len(), 4);
    let again = thread_function((0, 1), (4, 1), 2);
    assert_eq!(again.len(), 1);
    assert_eq!(again[0].data, p.data);
}

#[test]
fn scene_builder_places_eleven_primitives() {
    let scene = Scene::new(0);
    assert_eq!(scene.objects.len(), 11);
    // at t = 0 the first orbiting sphere sits at (0, 35, 95)
    match scene.objects[0] {
        Object::Circle { position, radius, surface } => {
            assert_eq!(position, Point(0, 35 * S, 95 * S));
            assert_eq!(radius, 15 * S);
            assert!(matches!(surface, Surface::Bounce { .. }));
        }
        Object::Plane { .. } => panic!("expected a sphere first"),
    }
    // the central sphere never moves
    match scene.objects[1] {
        Object::Circle { position, radius, .. } => {
            assert_eq!(position, Point(0, 0, 95 * S));
            assert_eq!(radius, 12 * S);
        }
        Object::Plane { .. } => panic!("expected the central sphere"),
    }
    // the ceiling is an emissive plane
    match scene.objects[6] {
        Object::Plane { center, normal, surface } => {
            assert_eq!(center, Point(0, 175 * S, 0));
            assert_eq!(normal, Point(0, -S, 0));
            assert!(matches!(surface, Surface::Light { .. }));
        }
        Object::Circle { .. } => panic!("expected a plane"),
    }
}

#[test]
fn scene_builder_rotates_with_time() {
    // a quarter turn back: sin(-90) = -1, cos(-90) = 0
    let scene = Scene::new(-90);
    match scene.objects[0] {
        Object::Circle { position, .. } => {
            assert_eq!(position, Point(-35 * S, 0, 95 * S));
        }
        Object::Plane { .. } => panic!("expected a sphere first"),
    }
    // a full turn is exactly the starting position again
    let a = Scene::new(360);
    let b = Scene::new(0);
    match (&a.objects[0], &b.objects[0]) {
        (Object::Circle { position: pa, .. }, Object::Circle { position: pb, .. }) => {
            assert_eq!(pa, pb);
        }
        _ => panic!("expected spheres"),
    }
}

#[test]
fn thread_function_renders_one_picture_per_time_step() {
    let out = thread_function((0, 2), (2, 2), 1);
    assert_eq!(out.len(), 2);
    for p in &out {
        assert_eq!(p.size, (2, 2));
        assert_eq!(p.data.len(), 2);
        assert_eq!(p.data[0].len(), 2);
    }
    // the first picture matches a direct render at t = 0
    let mut direct = Picture::new((2, 2));
    Scene::new(0).generate_picture(&mut direct, 1);
    assert_eq!(out[0].data, direct.data);
    // and the second a direct render at t = 1
    let mut direct1 = Picture::new((2, 2));
    Scene::new(1).generate_picture(&mut direct1, 1);
    assert_eq!(out[1].data, direct1.data);
}

#[test]
fn thread_function_empty_or_reversed_range_is_empty() {
    assert_eq!(thread_function((5, 5), (2, 2), 1).len(), 0);
    assert_eq!(thread_function((3, 1), (2, 2), 1).len(), 0);
}
