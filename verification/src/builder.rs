//! The built-in demonstration scene: a factory that places five spheres
//! and six planes, rotated by an integer time parameter in degrees.

use crate::color::Color;
use crate::fixed::fx_add;
use crate::fixed::fx_mul;
use crate::fixed::fx_sub;
use crate::fixed::spec_fx_add;
use crate::fixed::spec_fx_mul;
use crate::fixed::spec_fx_sub;
use crate::fixed::tdiv;
use crate::fixed::FX_ONE;
use crate::scene::Object;
use crate::scene::Scene;
use crate::scene::Surface;
use crate::vector::Point;
use vstd::prelude::*;

verus! {

/// An angle in degrees reduced to `0..360`.
pub open spec fn spec_deg_norm(t: int) -> int {
    if t >= 0 {
        t % 360
    } else {
        359 - ((-1 - t) % 360)
    }
}

/// Sine on the half turn `0..=180` degrees, as a fixed-point scalar, by
/// the classical rational approximation `4a(180-a) / (40500 - a(180-a))`.
/// Exact at 0, 90 and 180 degrees; within about 0.002 elsewhere.
pub open spec fn spec_sin_half(a: int) -> int
    recommends
        0 <= a <= 180,
{
    let p = a * (180 - a);
    tdiv(4 * p * FX_ONE, 40500 - p)
}

/// Sine of an integer angle in degrees, extended over the full turn by
/// odd symmetry.
pub open spec fn spec_sin_deg(t: int) -> int {
    let a = spec_deg_norm(t);
    if a <= 180 {
        spec_sin_half(a)
    } else {
        -spec_sin_half(a - 180)
    }
}

/// Cosine of an integer angle in degrees, as the sine a quarter turn on.
pub open spec fn spec_cos_deg(t: int) -> int {
    spec_sin_deg(t + 90)
}

fn deg_norm(t: i64) -> (r: i64)
    ensures
        r as int == spec_deg_norm(t as int),
        0 <= r < 360,
{
    if t >= 0 {
        ((t as u64) % 360) as i64
    } else {
        359 - (((-1 - t) as u64 % 360) as i64)
    }
}

fn sin_half(a: i64) -> (r: i64)
    requires
        0 <= a <= 180,
    ensures
        r as int == spec_sin_half(a as int),
        0 <= r <= FX_ONE,
{
    proof {
        assert(0 <= (a as int) * (180 - a as int) <= 8100) by (nonlinear_arith)
            requires
                0 <= a as int <= 180,
        ;
    }
    let p = a * (180 - a);
    let num = 4 * p * FX_ONE;
    let den = 40500 - p;
    let q = (num as u64) / (den as u64);
    proof {
        assert(num as int <= 65536 * (den as int));
        vstd::arithmetic::div_mod::lemma_div_is_ordered(
            num as int,
            (den as int) * 65536,
            den as int,
        );
        vstd::arithmetic::div_mod::lemma_div_multiples_vanish(65536, den as int);
    }
    q as i64
}

fn sin_deg(t: i64) -> (r: i64)
    ensures
        r as int == spec_sin_deg(t as int),
{
    let a = deg_norm(t);
    if a <= 180 {
        sin_half(a)
    } else {
        -sin_half(a - 180)
    }
}

fn cos_deg(t: i64) -> (r: i64)
    requires
        t < i64::MAX - 90,
    ensures
        r as int == spec_cos_deg(t as int),
{
    sin_deg(t + 90)
}

/// The demonstration scene at time `t` (degrees): the hard-coded list of
/// primitives, in scan order, that [`Scene::new`] constructs.
pub open spec fn spec_scene_objects(t: int) -> Seq<Object> {
    let white = Color(FX_ONE, FX_ONE, FX_ONE);
    let red = Color(FX_ONE, (7 * FX_ONE / 10) as i64, (FX_ONE / 10) as i64);
    let blue = Color((FX_ONE / 10) as i64, (4 * FX_ONE / 10) as i64, (8 * FX_ONE / 10) as i64);
    let x = spec_fx_mul(35 * FX_ONE, spec_sin_deg(t)) as i64;
    let y = spec_fx_mul(35 * FX_ONE, spec_cos_deg(t)) as i64;
    seq![
        Object::Circle {
            position: Point(x, y, (95 * FX_ONE) as i64),
            radius: (15 * FX_ONE) as i64,
            surface: Surface::Bounce { diffraction: FX_ONE, color: blue },
        },
        Object::Circle {
            position: Point(0i64, 0i64, (95 * FX_ONE) as i64),
            radius: (12 * FX_ONE) as i64,
            surface: Surface::Bounce { diffraction: FX_ONE, color: white },
        },
        Object::Circle {
            position: Point((-x) as i64, (-y) as i64, (95 * FX_ONE) as i64),
            radius: (15 * FX_ONE) as i64,
            surface: Surface::Bounce { diffraction: FX_ONE, color: blue },
        },
        Object::Circle {
            position: Point((-y) as i64, 0i64, spec_fx_sub(95 * FX_ONE, x as int) as i64),
            radius: (15 * FX_ONE) as i64,
            surface: Surface::Bounce { diffraction: FX_ONE, color: red },
        },
        Object::Circle {
            position: Point(y, 0i64, spec_fx_add(95 * FX_ONE, x as int) as i64),
            radius: (15 * FX_ONE) as i64,
            surface: Surface::Bounce { diffraction: FX_ONE, color: red },
        },
        Object::Plane {
            normal: Point(0i64, FX_ONE, 0i64).spec_normalised(),
            center: Point(0i64, (-175 * FX_ONE) as i64, 0i64),
            surface: Surface::Bounce { diffraction: FX_ONE, color: white },
        },
        Object::Plane {
            normal: Point(0i64, (-FX_ONE) as i64, 0i64).spec_normalised(),
            center: Point(0i64, (175 * FX_ONE) as i64, 0i64),
            surface: Surface::Light { color: white },
        },
        Object::Plane {
            normal: Point(FX_ONE, 0i64, FX_ONE).spec_normalised(),
            center: Point((50 * FX_ONE) as i64, 0i64, (-250 * FX_ONE) as i64),
            surface: Surface::Light { color: white },
        },
        Object::Plane {
            normal: Point((-FX_ONE) as i64, 0i64, (-FX_ONE) as i64).spec_normalised(),
            center: Point(0i64, 0i64, spec_fx_add(200 * FX_ONE, t * FX_ONE) as i64),
            surface: Surface::Light { color: white },
        },
        Object::Plane {
            normal: Point(FX_ONE, 0i64, (-FX_ONE) as i64).spec_normalised(),
            center: Point(0i64, 0i64, spec_fx_add(200 * FX_ONE, t * FX_ONE) as i64),
            surface: Surface::Bounce { diffraction: FX_ONE, color: white },
        },
        Object::Plane {
            normal: Point((-FX_ONE) as i64, 0i64, FX_ONE).spec_normalised(),
            center: Point((50 * FX_ONE) as i64, 0i64, (-250 * FX_ONE) as i64),
            surface: Surface::Bounce { diffraction: FX_ONE, color: white },
        },
    ]
}

impl Scene {
    /// The demonstration scene at time `t` in degrees: three spheres
    /// circling a central one between a reflective floor and an emissive
    /// ceiling, boxed in by two emissive and three reflective planes.
    pub fn new(t: i32) -> (s: Scene)
        ensures
            s.objects@ == spec_scene_objects(t as int),
    {
        let tt: i64 = t as i64;
        let white = Color(FX_ONE, FX_ONE, FX_ONE);
        let red = Color(FX_ONE, 7 * FX_ONE / 10, FX_ONE / 10);
        let blue = Color(FX_ONE / 10, 4 * FX_ONE / 10, 8 * FX_ONE / 10);
        let x = fx_mul(35 * FX_ONE, sin_deg(tt));
        let y = fx_mul(35 * FX_ONE, cos_deg(tt));
        let mut objects: Vec<Object> = Vec::new();
        objects.push(Object::Circle {
            position: Point(x, y, 95 * FX_ONE),
            radius: 15 * FX_ONE,
            surface: Surface::Bounce { diffraction: FX_ONE, color: blue },
        });
        objects.push(Object::Circle {
            position: Point(0, 0, 95 * FX_ONE),
            radius: 12 * FX_ONE,
            surface: Surface::Bounce { diffraction: FX_ONE, color: white },
        });
        objects.push(Object::Circle {
            position: Point(-x, -y, 95 * FX_ONE),
            radius: 15 * FX_ONE,
            surface: Surface::Bounce { diffraction: FX_ONE, color: blue },
        });
        objects.push(Object::Circle {
            position: Point(-y, 0, fx_sub(95 * FX_ONE, x)),
            radius: 15 * FX_ONE,
            surface: Surface::Bounce { diffraction: FX_ONE, color: red },
        });
        objects.push(Object::Circle {
            position: Point(y, 0, fx_add(95 * FX_ONE, x)),
            radius: 15 * FX_ONE,
            surface: Surface::Bounce { diffraction: FX_ONE, color: red },
        });
        objects.push(Object::Plane {
            normal: Point(0, FX_ONE, 0).normalised(),
            center: Point(0, -175 * FX_ONE, 0),
            surface: Surface::Bounce { diffraction: FX_ONE, color: white },
        });
        objects.push(Object::Plane {
            normal: Point(0, -FX_ONE, 0).normalised(),
            center: Point(0, 175 * FX_ONE, 0),
            surface: Surface::Light { color: white },
        });
        objects.push(Object::Plane {
            normal: Point(FX_ONE, 0, FX_ONE).normalised(),
            center: Point(50 * FX_ONE, 0, -250 * FX_ONE),
            surface: Surface::Light { color: white },
        });
        objects.push(Object::Plane {
            normal: Point(-FX_ONE, 0, -FX_ONE).normalised(),
            center: Point(0, 0, fx_add(200 * FX_ONE, tt * FX_ONE)),
            surface: Surface::Light { color: white },
        });
        objects.push(Object::Plane {
            normal: Point(FX_ONE, 0, -FX_ONE).normalised(),
            center: Point(0, 0, fx_add(200 * FX_ONE, tt * FX_ONE)),
            surface: Surface::Bounce { diffraction: FX_ONE, color: white },
        });
        objects.push(Object::Plane {
            normal: Point(-FX_ONE, 0, FX_ONE).normalised(),
            center: Point(50 * FX_ONE, 0, -250 * FX_ONE),
            surface: Surface::Bounce { diffraction: FX_ONE, color: white },
        });
        proof {
            assert(objects@ =~= spec_scene_objects(t as int));
        }
        Scene { objects }
    }
}

} // verus!
