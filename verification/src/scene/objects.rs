use vstd::prelude::*;

use super::geo::{Key, EPSILON, ONE, ONE_PLUS_EPSILON, ZERO};

verus! {

/// How a surface scatters light: evenly over the hemisphere, or as a mirror.
#[derive(Clone, Copy, Debug, PartialEq, Eq, Structural)]
pub enum BSDF {
    Diffuse,
    Specular,
}

/// A spectrum is black where its energy, the sum of its three channels, does
/// not exceed epsilon.
pub open spec fn spec_is_black(energy: Key) -> bool {
    energy <= EPSILON
}

/// Whether a spectrum with the given energy is black.
#[verifier::when_used_as_spec(spec_is_black)]
pub fn is_black(energy: Key) -> (black: bool)
    ensures
        black == spec_is_black(energy),
{
    energy <= EPSILON
}

/// Where a ray meets the plane of a triangle: at distance `t` along the ray,
/// at the point with barycentric coordinates `b1` and `b2`, whose sum is
/// `b1_plus_b2`. Each is given by its key.
#[derive(Clone, Copy, Debug, PartialEq, Eq, Structural)]
pub struct TriangleSolution {
    pub t: Key,
    pub b1: Key,
    pub b2: Key,
    pub b1_plus_b2: Key,
}

impl TriangleSolution {
    /// The point lies in the triangle, its edges and corners counted in, and
    /// beyond epsilon along the ray. The sum of the coordinates may exceed
    /// one by epsilon.
    pub open spec fn is_hit(self) -> bool {
        &&& ZERO <= self.b1 <= ONE
        &&& ZERO <= self.b2 <= ONE
        &&& self.b1_plus_b2 <= ONE_PLUS_EPSILON
        &&& self.t > EPSILON
    }
}

/// The distance at which a ray hits a triangle, if it does.
pub fn triangle_distance(solution: TriangleSolution) -> (distance: Option<Key>)
    ensures
        distance == if solution.is_hit() {
            Some(solution.t)
        } else {
            None
        },
{
    if solution.b1 < ZERO || solution.b2 < ZERO || solution.b1 > ONE || solution.b2 > ONE
        || solution.b1_plus_b2 > ONE_PLUS_EPSILON || solution.t <= EPSILON {
        None
    } else {
        Some(solution.t)
    }
}

/// Whether the line of a ray comes within a sphere's radius of its centre:
/// `d2` is the key of the squared distance from the centre to the line,
/// `radius2` that of the squared radius. A line that touches the sphere
/// reaches it.
pub fn sphere_in_reach(d2: Key, radius2: Key) -> (reached: bool)
    ensures
        reached == (d2 <= radius2),
{
    d2 <= radius2
}

/// The distance at which a ray hits a sphere, from the distances `t0` and
/// `t1` at which its line enters and leaves the sphere: none where both lie
/// behind the origin; else the smaller of the two where it does not lie
/// behind the origin, and `t1` where it does.
pub open spec fn spec_sphere_distance(t0: Key, t1: Key) -> Option<Key> {
    if t0 < ZERO && t1 < ZERO {
        None
    } else {
        let nearer = if t0 < t1 {
            t0
        } else {
            t1
        };
        if nearer >= ZERO {
            Some(nearer)
        } else {
            Some(t1)
        }
    }
}

/// Computes [`spec_sphere_distance`].
pub fn sphere_distance(t0: Key, t1: Key) -> (distance: Option<Key>)
    ensures
        distance == spec_sphere_distance(t0, t1),
{
    if t0 < ZERO && t1 < ZERO {
        return None;
    }
    let nearer: Key = if t0 < t1 {
        t0
    } else {
        t1
    };
    if nearer >= ZERO {
        Some(nearer)
    } else {
        Some(t1)
    }
}

/// A ray hits a sphere at the first place at which its line, walked from the
/// origin on, meets the sphere: the distance is one of the two, it does not
/// lie behind the origin, and the other one lies behind the origin or no
/// nearer. From inside the sphere that is the one place ahead.
pub proof fn lemma_sphere_distance_is_first(t0: Key, t1: Key)
    requires
        t0 <= t1,
    ensures
        spec_sphere_distance(t0, t1) is None <==> t1 < ZERO,
        spec_sphere_distance(t0, t1) matches Some(t) ==> (t == t0 || t == t1) && t >= ZERO && (t0
            < ZERO || t <= t0),
        t0 == t1 && t0 >= ZERO ==> spec_sphere_distance(t0, t1) == Some(t0),
{
}

} // verus!
