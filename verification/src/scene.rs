//! The scene model and the ray tracing engine: per-primitive
//! intersection, nearest-hit selection, and the recursive bounce
//! (shading) function.

use crate::color::Color;
use crate::fixed::fx_div;
use crate::fixed::fx_mul;
use crate::fixed::fx_sqrt;
use crate::fixed::fx_sub;
use crate::fixed::spec_fx_div;
use crate::fixed::spec_fx_mul;
use crate::fixed::spec_fx_sqrt;
use crate::fixed::spec_fx_sub;
use crate::fixed::FX_ONE;
use crate::vector::Point;
use vstd::prelude::*;

verus! {

/// Minimum distance a candidate hit must exceed to count: one whole
/// world unit rather than a tiny epsilon. This suppresses
/// self-intersection at a bounce origin, and as a side effect clips any
/// geometry closer than one unit to the ray origin; it also keeps every
/// accepted hit distance above one, where the attenuation falloff
/// divisor is at least one.
pub const MIN_HIT_DIST: i64 = FX_ONE;

/// A plane whose normal has a dot product with the ray no larger than
/// this (about 0.0001 world units) is treated as parallel: the ray
/// misses instead of dividing by a near-zero denominator.
pub const PARALLEL_EPS: i64 = 6;

/// How a primitive interacts with light.
#[derive(Clone, Copy, Debug, PartialEq, Eq, Structural)]
pub enum Surface {
    /// A reflective surface: the outgoing color is whatever the mirrored
    /// ray brings back, tinted by `color`. `diffraction` is carried with
    /// the surface but does not influence shading.
    Bounce { diffraction: i64, color: Color },
    /// An emissive surface: hitting it yields `color` attenuated by the
    /// travel distance, and ends the recursion.
    Light { color: Color },
}

/// The outcome of intersecting one ray with geometry.
#[derive(Clone, Copy, Debug, PartialEq, Eq, Structural)]
pub enum IntersectResult {
    /// A valid hit: the surface struck, the hit point, the surface
    /// normal there, the distance travelled, and the unit direction of
    /// the incoming ray.
    Intersect { surface: Surface, point: Point, normal: Point, dist: i64, ray: Point },
    /// Nothing was hit; the queried direction is carried along.
    Miss(Point),
}

impl IntersectResult {
    /// The nearer of two results: a hit beats a miss, a strictly nearer
    /// hit beats a farther one, and on equal distances the earlier
    /// result (`self`) is kept, so ties go to the first primitive in
    /// scan order.
    pub open spec fn spec_update(self, other: Self) -> Self {
        match other {
            IntersectResult::Miss(..) => self,
            IntersectResult::Intersect { dist: odist, .. } => match self {
                IntersectResult::Miss(..) => other,
                IntersectResult::Intersect { dist: sdist, .. } => {
                    if odist < sdist {
                        other
                    } else {
                        self
                    }
                },
            },
        }
    }

    /// Whether a hit was found.
    pub open spec fn is_hit(self) -> bool {
        self is Intersect
    }

    /// The hit distance; meaningful only for hits.
    pub open spec fn hit_dist(self) -> int
        recommends
            self is Intersect,
    {
        self->dist as int
    }

    pub fn update(self, other: Self) -> (r: Self)
        ensures
            r == self.spec_update(other),
    {
        match other {
            IntersectResult::Miss(..) => self,
            IntersectResult::Intersect { dist: odist, .. } => match self {
                IntersectResult::Miss(..) => other,
                IntersectResult::Intersect { dist: sdist, .. } => {
                    if odist < sdist {
                        other
                    } else {
                        self
                    }
                },
            },
        }
    }
}

/// A geometric primitive carrying its surface.
#[derive(Clone, Copy, Debug, PartialEq, Eq, Structural)]
pub enum Object {
    /// A sphere around `position` with the given radius.
    Circle { position: Point, radius: i64, surface: Surface },
    /// A plane through `center` with unit normal `normal`; the stored
    /// normal is reported for hits from either side, never flipped
    /// toward the ray.
    Plane { center: Point, normal: Point, surface: Surface },
}

impl Object {
    /// The candidate hit of one ray against this primitive alone. `dir`
    /// must already be a unit direction; `origin` is the ray origin.
    ///
    /// Sphere: with `l` from origin to center and `tca` the projection
    /// of `l` on the ray, the ray hits if `tca` clears the minimum
    /// distance, the squared perpendicular distance `d2` stays within
    /// the squared radius, and the entry distance `tca - sqrt(r^2 - d2)`
    /// clears the minimum distance too.
    ///
    /// Plane: the ray hits if it is not parallel (guarding the division)
    /// and the solved distance clears the minimum distance.
    pub open spec fn spec_intersect(self, dir: Point, origin: Point) -> IntersectResult {
        match self {
            Object::Circle { position, radius, surface } => {
                let l = position.spec_sub(origin);
                let tca = l.spec_dot(dir);
                if tca <= MIN_HIT_DIST {
                    IntersectResult::Miss(dir)
                } else {
                    let d2 = spec_fx_sub(l.spec_dot(l), spec_fx_mul(tca, tca));
                    let r2 = spec_fx_mul(radius as int, radius as int);
                    if d2 > r2 {
                        IntersectResult::Miss(dir)
                    } else {
                        let thc = spec_fx_sqrt(spec_fx_sub(r2, d2));
                        let t = spec_fx_sub(tca, thc);
                        if MIN_HIT_DIST < t {
                            let hit = dir.spec_mult(t).spec_add(origin);
                            IntersectResult::Intersect {
                                surface,
                                point: hit,
                                normal: hit.spec_sub(position).spec_normalised(),
                                dist: t as i64,
                                ray: dir,
                            }
                        } else {
                            IntersectResult::Miss(dir)
                        }
                    }
                }
            },
            Object::Plane { center, normal, surface } => {
                let denom = normal.spec_dot(dir);
                if denom > PARALLEL_EPS || denom < -PARALLEL_EPS {
                    let t = spec_fx_div(center.spec_sub(origin).spec_dot(normal), denom);
                    if t > MIN_HIT_DIST {
                        IntersectResult::Intersect {
                            surface,
                            dist: t as i64,
                            point: origin.spec_add(dir.spec_mult(t)),
                            ray: dir,
                            normal,
                        }
                    } else {
                        IntersectResult::Miss(dir)
                    }
                } else {
                    IntersectResult::Miss(dir)
                }
            },
        }
    }

    pub fn intersect(&self, dir: &Point, origin: &Point) -> (r: IntersectResult)
        ensures
            r == self.spec_intersect(*dir, *origin),
    {
        match self {
            Object::Circle { position, radius, surface } => {
                let l = position.sub(origin);
                let tca = l.dot(dir);
                if tca <= MIN_HIT_DIST {
                    return IntersectResult::Miss(*dir);
                }
                let d2 = fx_sub(l.dot(&l), fx_mul(tca, tca));
                let r2 = fx_mul(*radius, *radius);
                if d2 > r2 {
                    return IntersectResult::Miss(*dir);
                }
                let thc = fx_sqrt(fx_sub(r2, d2));
                let t = fx_sub(tca, thc);
                if MIN_HIT_DIST < t {
                    let hit = dir.mult(t).add(origin);
                    IntersectResult::Intersect {
                        surface: *surface,
                        point: hit,
                        normal: hit.sub(position).normalised(),
                        dist: t,
                        ray: *dir,
                    }
                } else {
                    IntersectResult::Miss(*dir)
                }
            },
            Object::Plane { center, normal, surface } => {
                let denom = normal.dot(dir);
                if denom > PARALLEL_EPS || denom < -PARALLEL_EPS {
                    let t = fx_div(center.sub(origin).dot(normal), denom);
                    if t > MIN_HIT_DIST {
                        return IntersectResult::Intersect {
                            surface: *surface,
                            dist: t,
                            point: origin.add(&dir.mult(t)),
                            ray: *dir,
                            normal: *normal,
                        };
                    }
                    IntersectResult::Miss(*dir)
                } else {
                    IntersectResult::Miss(*dir)
                }
            },
        }
    }
}

/// An ordered list of primitives; order matters only for breaking ties
/// between hits at exactly equal distances.
pub struct Scene {
    pub objects: Vec<Object>,
}

/// The nearest valid hit among the first `n` primitives, folded in scan
/// order; with no hit the queried direction is carried in the miss.
pub open spec fn spec_calculate_prefix(
    objects: Seq<Object>,
    dir: Point,
    origin: Point,
    n: int,
) -> IntersectResult
    decreases n,
{
    if n <= 0 {
        IntersectResult::Miss(dir)
    } else {
        spec_calculate_prefix(objects, dir, origin, n - 1).spec_update(
            objects[n - 1].spec_intersect(dir.spec_normalised(), origin),
        )
    }
}

/// The nearest valid hit of the ray `origin + t * normalised(dir)`
/// across the whole scene.
pub open spec fn spec_calculate(objects: Seq<Object>, dir: Point, origin: Point) -> IntersectResult {
    spec_calculate_prefix(objects, dir, origin, objects.len() as int)
}

/// The candidate hit that primitive `i` alone offers to the ray
/// `origin + t * normalised(dir)`.
pub open spec fn spec_candidate(
    objects: Seq<Object>,
    dir: Point,
    origin: Point,
    i: int,
) -> IntersectResult {
    objects[i].spec_intersect(dir.spec_normalised(), origin)
}

/// Background and depth-exhausted terminal color: black.
pub open spec fn spec_black() -> Color {
    Color(0i64, 0i64, 0i64)
}

/// Full-intensity white, the light color carried by emissive hits.
pub open spec fn spec_white() -> Color {
    Color(FX_ONE, FX_ONE, FX_ONE)
}

/// The outgoing color for an intersection outcome with `depth` bounces
/// of budget left. Zero budget is the terminal case and yields black
/// whatever was hit; a miss yields black as well (the two terminal
/// colors are deliberately the same constant). A light is returned
/// attenuated by its distance without recursing; a reflective hit
/// mirrors the ray about the normal and recurses with one bounce less.
pub open spec fn spec_bounce(objects: Seq<Object>, ir: IntersectResult, depth: nat) -> Color
    decreases depth,
{
    if depth == 0 {
        spec_black()
    } else {
        match ir {
            IntersectResult::Miss(..) => spec_black(),
            IntersectResult::Intersect { surface, point, normal, dist, ray } => match surface {
                Surface::Light { color } => color.spec_light(spec_white(), dist as int),
                Surface::Bounce { color, .. } => {
                    let b = ray.spec_mirror(normal).spec_normalised();
                    let res = spec_bounce(
                        objects,
                        spec_calculate(objects, b, point),
                        (depth - 1) as nat,
                    );
                    color.spec_light(res, dist as int)
                },
            },
        }
    }
}

impl Scene {
    /// The nearest valid hit of the ray through all primitives, scanned
    /// in order. The direction need not be normalised: it is normalised
    /// here before testing.
    pub fn calculate(&self, direction: &Point, origin: &Point) -> (r: IntersectResult)
        ensures
            r == spec_calculate(self.objects@, *direction, *origin),
    {
        let unit = direction.normalised();
        let mut ret = IntersectResult::Miss(*direction);
        let mut i: usize = 0;
        while i < self.objects.len()
            invariant
                i <= self.objects.len(),
                unit == direction.spec_normalised(),
                ret == spec_calculate_prefix(self.objects@, *direction, *origin, i as int),
            decreases self.objects.len() - i,
        {
            ret = ret.update(self.objects[i].intersect(&unit, origin));
            i = i + 1;
        }
        ret
    }

    /// The outgoing color for `intersect` with `depth` bounces of budget
    /// left (see [`spec_bounce`]).
    pub fn bounce(&self, intersect: IntersectResult, depth: u32) -> (r: Color)
        ensures
            r == spec_bounce(self.objects@, intersect, depth as nat),
        decreases depth,
    {
        if depth == 0 {
            return Color(0, 0, 0);
        }
        match intersect {
            IntersectResult::Miss(..) => Color(0, 0, 0),
            IntersectResult::Intersect { surface, point, normal, dist, ray } => match surface {
                Surface::Light { color } => color.light(Color(FX_ONE, FX_ONE, FX_ONE), dist),
                Surface::Bounce { color, .. } => {
                    let b = ray.mirror(&normal).normalised();
                    let res = self.bounce(self.calculate(&b, &point), depth - 1);
                    color.light(res, dist)
                },
            },
        }
    }
}

} // verus!
