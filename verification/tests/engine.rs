//! Intersection and shading scenarios on hand-built scenes.

use rt::color::Color;
use rt::fixed::FX_ONE;
use rt::scene::IntersectResult;
use rt::scene::Object;
use rt::scene::Scene;
use rt::scene::Surface;
use rt::vector::Point;

const S: i64 = FX_ONE;

fn white() -> Color {
    Color(S, S, S)
}

fn bounce_white() -> Surface {
    Surface::Bounce { diffraction: S, color: white() }
}

#[test]
fn nearest_of_two_overlapping_spheres_wins() {
    // Two spheres facing the ray along +z, with entry distances 10 and
    // 20: the scan must report distance 10, not 20, whatever the scan
    // order.
    let scene = Scene {
        objects: vec![
            Object::Circle {
                position: Point::new(0, 0, 25 * S),
                radius: 5 * S,
                surface: bounce_white(),
            },
            Object::Circle {
                position: Point::new(0, 0, 15 * S),
                radius: 5 * S,
                surface: bounce_white(),
            },
        ],
    };
    let r = scene.calculate(&Point::new(0, 0, S), &Point::new(0, 0, 0));
    match r {
        IntersectResult::Intersect { dist, point, normal, ray, .. } => {
            assert_eq!(dist, 10 * S);
            assert_eq!(point, Point(0, 0, 10 * S));
            assert_eq!(normal, Point(0, 0, -S));
            assert_eq!(ray, Point(0, 0, S));
        }
        IntersectResult::Miss(..) => panic!("expected a hit"),
    }
}

#[test]
fn scan_order_is_irrelevant_for_strict_nearest() {
    let near = Object::Circle {
        position: Point::new(0, 0, 50 * S),
        radius: 5 * S,
        surface: bounce_white(),
    };
    let far = Object::Circle {
        position: Point::new(0, 0, 100 * S),
        radius: 5 * S,
        surface: bounce_white(),
    };
    let a = Scene { objects: vec![near, far] };
    let b = Scene { objects: vec![far, near] };
    let dir = Point::new(0, 0, S);
    let origin = Point::new(0, 0, 0);
    assert_eq!(a.calculate(&dir, &origin), b.calculate(&dir, &origin));
}

#[test]
fn ray_missing_everything_reports_miss() {
    // One sphere behind the origin, one plane parallel to the ray.
    let scene = Scene {
        objects: vec![
            Object::Circle {
                position: Point::new(0, 0, -50 * S),
                radius: 5 * S,
                surface: bounce_white(),
            },
            Object::Plane {
                center: Point::new(0, -10 * S, 0),
                normal: Point::new(0, S, 0),
                surface: bounce_white(),
            },
        ],
    };
    let r = scene.calculate(&Point::new(0, 0, S), &Point::new(0, 0, 0));
    assert!(matches!(r, IntersectResult::Miss(..)));
}

#[test]
fn empty_scene_reports_miss() {
    let scene = Scene { objects: vec![] };
    let r = scene.calculate(&Point::new(0, 0, S), &Point::new(0, 0, 0));
    assert!(matches!(r, IntersectResult::Miss(..)));
}

#[test]
fn hit_nearer_than_minimum_distance_is_rejected() {
    // The candidate entry distance is exactly the threshold (one unit)
    // and must be rejected, not accepted.
    let scene = Scene {
        objects: vec![Object::Circle {
            position: Point::new(0, 0, 2 * S),
            radius: S,
            surface: bounce_white(),
        }],
    };
    let r = scene.calculate(&Point::new(0, 0, S), &Point::new(0, 0, 0));
    assert!(matches!(r, IntersectResult::Miss(..)));
}

#[test]
fn depth_zero_returns_terminal_black() {
    // With the budget exhausted the terminal color comes back whatever
    // was hit: a light, a reflector, or nothing.
    let light_scene = Scene {
        objects: vec![Object::Plane {
            center: Point::new(0, 0, 50 * S),
            normal: Point::new(0, 0, -S),
            surface: Surface::Light { color: white() },
        }],
    };
    let hit = light_scene.calculate(&Point::new(0, 0, S), &Point::new(0, 0, 0));
    assert!(matches!(hit, IntersectResult::Intersect { .. }));
    assert_eq!(light_scene.bounce(hit, 0), Color(0, 0, 0));
    let miss = light_scene.calculate(&Point::new(0, 0, -S), &Point::new(0, 0, 0));
    assert!(matches!(miss, IntersectResult::Miss(..)));
    assert_eq!(light_scene.bounce(miss, 0), Color(0, 0, 0));
}

#[test]
fn miss_at_positive_depth_is_background_black() {
    let scene = Scene { objects: vec![] };
    let r = scene.calculate(&Point::new(0, 0, S), &Point::new(0, 0, 0));
    assert_eq!(scene.bounce(r, 10), Color(0, 0, 0));
}

#[test]
fn direct_light_hit_attenuates_without_recursion() {
    // A light plane at distance 50, with a garishly green reflector
    // hidden behind it: the green must never appear, and the result must
    // be exactly white attenuated by the distance.
    let green = Color(0, S, 0);
    let scene = Scene {
        objects: vec![
            Object::Plane {
                center: Point::new(0, 0, 50 * S),
                normal: Point::new(0, 0, -S),
                surface: Surface::Light { color: white() },
            },
            Object::Plane {
                center: Point::new(0, 0, 100 * S),
                normal: Point::new(0, 0, -S),
                surface: Surface::Bounce { diffraction: S, color: green },
            },
        ],
    };
    let r = scene.calculate(&Point::new(0, 0, S), &Point::new(0, 0, 0));
    match r {
        IntersectResult::Intersect { dist, surface, .. } => {
            assert_eq!(dist, 50 * S);
            assert!(matches!(surface, Surface::Light { .. }));
        }
        IntersectResult::Miss(..) => panic!("expected a hit"),
    }
    let shaded = scene.bounce(r, 20);
    // white attenuated by the falloff of 50 world units
    assert_eq!(shaded, Color(57995, 57995, 57995));
    // the same with a huge budget: no recursion happened
    assert_eq!(scene.bounce(r, 1_000_000), Color(57995, 57995, 57995));
    assert_ne!(shaded.1, green.1);
}

#[test]
fn reflective_hit_bounces_once_into_light() {
    // A half-bright mirror ahead, a light behind the camera: one bounce
    // reaches the light, so depth two shows it and depth one does not.
    let half = Color(S / 2, S / 2, S / 2);
    let scene = Scene {
        objects: vec![
            Object::Plane {
                center: Point::new(0, 0, 50 * S),
                normal: Point::new(0, 0, -S),
                surface: Surface::Bounce { diffraction: S, color: half },
            },
            Object::Plane {
                center: Point::new(0, 0, -100 * S),
                normal: Point::new(0, 0, S),
                surface: Surface::Light { color: white() },
            },
        ],
    };
    let r = scene.calculate(&Point::new(0, 0, S), &Point::new(0, 0, 0));
    assert!(matches!(r, IntersectResult::Intersect { .. }));
    // depth 1: the reflected ray is traced with zero budget, so black.
    assert_eq!(scene.bounce(r, 1), Color(0, 0, 0));
    // depth 2: light at 150 units, tinted by the mirror, attenuated by 50.
    assert_eq!(scene.bounce(r, 2), Color(24794, 24794, 24794));
}

#[test]
fn update_prefers_strictly_nearer_hit_and_keeps_first_on_tie() {
    let mk = |dist: i64| IntersectResult::Intersect {
        surface: bounce_white(),
        point: Point(0, 0, dist),
        normal: Point(0, 0, -S),
        dist,
        ray: Point(0, 0, S),
    };
    let near = mk(10 * S);
    let far = mk(20 * S);
    let miss = IntersectResult::Miss(Point(0, 0, S));
    assert_eq!(near.update(far), near);
    assert_eq!(far.update(near), near);
    assert_eq!(near.update(miss), near);
    assert_eq!(miss.update(near), near);
    assert!(matches!(miss.update(miss), IntersectResult::Miss(..)));
    // tie at equal distance: the earlier result (self) survives, which
    // the differing surface colors make observable
    let red_hit = IntersectResult::Intersect {
        surface: Surface::Bounce { diffraction: S, color: Color(S, 0, 0) },
        point: Point(0, 0, 10 * S),
        normal: Point(0, 0, -S),
        dist: 10 * S,
        ray: Point(0, 0, S),
    };
    let green_hit = IntersectResult::Intersect {
        surface: Surface::Bounce { diffraction: S, color: Color(0, S, 0) },
        point: Point(0, 0, 10 * S),
        normal: Point(0, 0, -S),
        dist: 10 * S,
        ray: Point(0, 0, S),
    };
    assert_eq!(red_hit.update(green_hit), red_hit);
    assert_eq!(green_hit.update(red_hit), green_hit);
}
