//! General laws of the engine, stated and proved once over the spec
//! functions that the executable contracts use.

use crate::color::Color;
use crate::render::is_render;
use crate::scene::spec_black;
use crate::scene::spec_bounce;
use crate::scene::spec_calculate;
use crate::scene::spec_calculate_prefix;
use crate::scene::spec_candidate;
use crate::scene::spec_white;
use crate::scene::IntersectResult;
use crate::scene::Object;
use crate::scene::Surface;
use crate::scene::MIN_HIT_DIST;
use crate::vector::Point;
use vstd::prelude::*;

verus! {

/// Every candidate hit a primitive offers lies strictly beyond the
/// minimum hit distance: nothing at or behind the threshold is ever
/// reported as a hit.
pub proof fn lemma_candidate_exceeds_threshold(obj: Object, dir: Point, origin: Point)
    ensures
        obj.spec_intersect(dir, origin) is Intersect ==> obj.spec_intersect(
            dir,
            origin,
        ).hit_dist() > MIN_HIT_DIST,
{
}

/// Every candidate hit records exactly the geometric surface normal:
/// for a sphere the normalisation of the radial vector from its center
/// to the hit point, for a plane the stored (pre-normalised) normal,
/// never flipped toward the ray. Under truncating fixed-point
/// arithmetic a normalised vector's length can fall one or two raw
/// units short of one, so this pins the normal's exact value rather
/// than claiming exact unit length.
pub proof fn lemma_hit_normal_form(obj: Object, dir: Point, origin: Point)
    ensures
        obj.spec_intersect(dir, origin) matches IntersectResult::Intersect {
            normal,
            point,
            ..
        } ==> (match obj {
            Object::Circle { position, .. } => normal == point.spec_sub(
                position,
            ).spec_normalised(),
            Object::Plane { normal: stored, .. } => normal == stored,
        }),
{
}

proof fn lemma_prefix_all_miss(objects: Seq<Object>, dir: Point, origin: Point, n: int)
    requires
        0 <= n <= objects.len(),
        forall|i: int| 0 <= i < n ==> !(#[trigger] spec_candidate(objects, dir, origin, i)).is_hit(),
    ensures
        spec_calculate_prefix(objects, dir, origin, n) == IntersectResult::Miss(dir),
    decreases n,
{
    if n > 0 {
        lemma_prefix_all_miss(objects, dir, origin, n - 1);
        assert(!spec_candidate(objects, dir, origin, n - 1).is_hit());
    }
}

/// A ray that misses every primitive is reported as a miss, carrying the
/// queried direction.
pub proof fn lemma_miss_everything(objects: Seq<Object>, dir: Point, origin: Point)
    requires
        forall|i: int|
            0 <= i < objects.len() ==> !(#[trigger] spec_candidate(
                objects,
                dir,
                origin,
                i,
            )).is_hit(),
    ensures
        spec_calculate(objects, dir, origin) == IntersectResult::Miss(dir),
{
    lemma_prefix_all_miss(objects, dir, origin, objects.len() as int);
}

/// Whether the result `r` of scanning the first `n` primitives is the
/// candidate of index `i`, with every earlier candidate hit strictly
/// farther away: the witness that ties go to the first in scan order.
pub open spec fn is_first_nearest(
    objects: Seq<Object>,
    dir: Point,
    origin: Point,
    n: int,
    r: IntersectResult,
    i: int,
) -> bool {
    &&& 0 <= i < n
    &&& r == spec_candidate(objects, dir, origin, i)
    &&& forall|j: int|
        0 <= j < i && (#[trigger] spec_candidate(objects, dir, origin, j)).is_hit()
            ==> spec_candidate(objects, dir, origin, j).hit_dist() > r.hit_dist()
}

#[verifier::rlimit(50)]
proof fn lemma_prefix_nearest(objects: Seq<Object>, dir: Point, origin: Point, n: int)
    requires
        0 <= n <= objects.len(),
    ensures
        forall|i: int|
            0 <= i < n && (#[trigger] spec_candidate(objects, dir, origin, i)).is_hit() ==> {
                &&& spec_calculate_prefix(objects, dir, origin, n).is_hit()
                &&& spec_calculate_prefix(objects, dir, origin, n).hit_dist() <= spec_candidate(
                    objects,
                    dir,
                    origin,
                    i,
                ).hit_dist()
            },
        spec_calculate_prefix(objects, dir, origin, n).is_hit() ==> exists|i: int|
            is_first_nearest(
                objects,
                dir,
                origin,
                n,
                spec_calculate_prefix(objects, dir, origin, n),
                i,
            ),
    decreases n,
{
    if n > 0 {
        lemma_prefix_nearest(objects, dir, origin, n - 1);
        let prev = spec_calculate_prefix(objects, dir, origin, n - 1);
        let cand = spec_candidate(objects, dir, origin, n - 1);
        let cur = spec_calculate_prefix(objects, dir, origin, n);
        assert(cur == prev.spec_update(cand));
        if cur.is_hit() {
            if cand.is_hit() && (!prev.is_hit() || cand.hit_dist() < prev.hit_dist()) {
                assert(cur == cand);
                if prev.is_hit() {
                    // every earlier hit is at least as far as the old
                    // minimum, which the new candidate strictly beats
                    assert(forall|j: int|
                        0 <= j < n - 1 && (#[trigger] spec_candidate(
                            objects,
                            dir,
                            origin,
                            j,
                        )).is_hit() ==> spec_candidate(objects, dir, origin, j).hit_dist()
                            >= prev.hit_dist());
                }
                assert(is_first_nearest(objects, dir, origin, n, cur, n - 1));
            } else {
                assert(cur == prev);
                let i = choose|i: int| #[trigger] is_first_nearest(objects, dir, origin, n - 1, prev, i);
                assert(is_first_nearest(objects, dir, origin, n, cur, i));
            }
        }
    }
}

/// The scan always reports the globally nearest valid hit: any candidate
/// hit of any primitive bounds the reported distance from above, and the
/// reported hit is itself the candidate of the first primitive in scan
/// order achieving the minimal distance, so ties at exactly equal
/// distances go to the earlier primitive.
pub proof fn lemma_nearest_hit(objects: Seq<Object>, dir: Point, origin: Point)
    ensures
        forall|i: int|
            0 <= i < objects.len() && (#[trigger] spec_candidate(
                objects,
                dir,
                origin,
                i,
            )).is_hit() ==> {
                &&& spec_calculate(objects, dir, origin).is_hit()
                &&& spec_calculate(objects, dir, origin).hit_dist() <= spec_candidate(
                    objects,
                    dir,
                    origin,
                    i,
                ).hit_dist()
            },
        spec_calculate(objects, dir, origin).is_hit() ==> exists|i: int|
            is_first_nearest(
                objects,
                dir,
                origin,
                objects.len() as int,
                spec_calculate(objects, dir, origin),
                i,
            ),
{
    lemma_prefix_nearest(objects, dir, origin, objects.len() as int);
}

/// A ray aimed at some primitive's visible face (one that offers a
/// candidate hit) is reported as a hit, at a distance strictly beyond
/// the minimum hit distance and no farther than that candidate.
pub proof fn lemma_hit_when_candidate(objects: Seq<Object>, dir: Point, origin: Point, i: int)
    requires
        0 <= i < objects.len(),
        spec_candidate(objects, dir, origin, i).is_hit(),
    ensures
        spec_calculate(objects, dir, origin).is_hit(),
        spec_calculate(objects, dir, origin).hit_dist() > MIN_HIT_DIST,
        spec_calculate(objects, dir, origin).hit_dist() <= spec_candidate(
            objects,
            dir,
            origin,
            i,
        ).hit_dist(),
{
    lemma_nearest_hit(objects, dir, origin);
    let r = spec_calculate(objects, dir, origin);
    let j = choose|j: int|
        0 <= j < objects.len() && r == #[trigger] spec_candidate(objects, dir, origin, j);
    lemma_candidate_exceeds_threshold(objects[j], dir.spec_normalised(), origin);
}

/// With the depth budget exhausted, shading returns the fixed terminal
/// color whatever the intersection outcome was.
pub proof fn lemma_depth_zero_terminal(objects: Seq<Object>, ir: IntersectResult)
    ensures
        spec_bounce(objects, ir, 0) == spec_black(),
{
}

/// A ray that escapes the scene is shaded with the fixed background
/// color at every remaining depth — deliberately the same constant as
/// the depth-exhausted terminal color.
pub proof fn lemma_miss_is_background(objects: Seq<Object>, dir: Point, depth: nat)
    ensures
        spec_bounce(objects, IntersectResult::Miss(dir), depth) == spec_black(),
{
}

/// A direct hit on an emissive surface returns that surface's color
/// attenuated by the hit distance, with no further recursion: the result
/// does not depend on the remaining scene, the budget past the first
/// bounce, nor on any reflective surface behind the light.
pub proof fn lemma_light_hit_direct(
    objects: Seq<Object>,
    color: Color,
    point: Point,
    normal: Point,
    dist: i64,
    ray: Point,
    depth: nat,
)
    requires
        depth > 0,
    ensures
        spec_bounce(
            objects,
            IntersectResult::Intersect {
                surface: Surface::Light { color },
                point,
                normal,
                dist,
                ray,
            },
            depth,
        ) == color.spec_light(spec_white(), dist as int),
{
}

/// Rendering is deterministic: two grids that are both renders of the
/// same scene, camera, size and depth are equal, cell for cell and as
/// values. There is no hidden state and no randomness.
pub proof fn lemma_render_deterministic(
    objects: Seq<Object>,
    origin: Point,
    size: (u32, u32),
    depth: nat,
    g1: Seq<Seq<Color>>,
    g2: Seq<Seq<Color>>,
)
    requires
        is_render(objects, origin, size, depth, g1),
        is_render(objects, origin, size, depth, g2),
    ensures
        g1 == g2,
{
    assert forall|r: int| 0 <= r < g1.len() implies g1[r] =~= g2[r] by {
        assert(g1[r].len() == size.0 as int);
        assert(g2[r].len() == size.0 as int);
    }
    assert(g1 =~~= g2);
}

} // verus!
