use vstd::prelude::*;

use crate::scene::RayIntersection;

verus! {

/// Number of lots of the roulette. Each is as likely as the others.
pub const ROULETTE_LOTS: u32 = 10;

/// The lots below this number let a path go on: a path survives each bounce
/// with probability seven in ten.
pub const ROULETTE_SURVIVORS: u32 = 7;

/// What a ray contributes, as the estimator that is to be run for it.
#[derive(Clone, Copy, Debug, PartialEq, Eq, Structural)]
pub enum Radiance {
    /// The ray leaves the scene: no light.
    Black,
    /// The light that the primitive hit emits by itself.
    ZeroBounce(RayIntersection),
    /// Direct lighting of the point hit, by sampling the lights.
    OneBounce(RayIntersection),
    /// Direct lighting, and light from one more bounce where the path
    /// survives; the number is the bounces that the ray may still make.
    GlobalIllumination(RayIntersection, u32),
}

/// The estimator for a ray with `bounces_left` bounces, given its closest hit.
pub open spec fn spec_cast_ray(closest: Option<RayIntersection>, bounces_left: u32) -> Radiance {
    match closest {
        None => Radiance::Black,
        Some(hit) => if bounces_left == 0 {
            Radiance::ZeroBounce(hit)
        } else if bounces_left == 1 {
            Radiance::OneBounce(hit)
        } else {
            Radiance::GlobalIllumination(hit, bounces_left)
        },
    }
}

/// Chooses the estimator for a ray from its closest hit and the bounces it
/// may still make.
pub fn cast_ray(closest: Option<RayIntersection>, bounces_left: u32) -> (radiance: Radiance)
    ensures
        radiance == spec_cast_ray(closest, bounces_left),
{
    match closest {
        None => Radiance::Black,
        Some(hit) => match bounces_left {
            0 => Radiance::ZeroBounce(hit),
            1 => Radiance::OneBounce(hit),
            _ => Radiance::GlobalIllumination(hit, bounces_left),
        },
    }
}

/// Whether a path with `bounces_left` bounces goes on after the lot drawn for
/// it, and with how many bounces: it goes on, with one bounce fewer, where it
/// has two bounces or more and the lot is a survivor's.
pub open spec fn spec_next_bounce(bounces_left: u32, lot: u32) -> Option<u32> {
    if bounces_left >= 2 && lot < ROULETTE_SURVIVORS {
        Some((bounces_left - 1) as u32)
    } else {
        None
    }
}

/// Decides from a drawn lot whether a path goes on.
pub fn next_bounce(bounces_left: u32, lot: u32) -> (next: Option<u32>)
    ensures
        next == spec_next_bounce(bounces_left, lot),
{
    if bounces_left >= 2 && lot < ROULETTE_SURVIVORS {
        Some(bounces_left - 1)
    } else {
        None
    }
}

/// `fastrand::u32` on the range from 0 up to `lots`, `lots` left out: the next
/// number of the thread's generator, brought into that range. The range is not
/// empty, so the call does not panic, and the number lies in the range;
/// nothing more is known of it.
#[verifier::external_body]
fn draw_lot(lots: u32) -> (lot: u32)
    requires
        lots > 0,
    ensures
        lot < lots,
{
    fastrand::u32(0..lots)
}

/// `fastrand::seed`: restarts the thread's generator from `seed`.
#[verifier::external_body]
fn seed_generator(seed: u64) {
    fastrand::seed(seed)
}

/// Restarts the random draws of this thread from `seed`, so that a render can
/// be made again draw for draw.
pub fn seed(seed: u64) {
    seed_generator(seed)
}

/// Russian roulette: draws a lot and decides whether the path goes on. A path
/// that goes on has one bounce fewer; one with fewer than two bounces ends
/// whatever the lot.
pub fn russian_roulette(bounces_left: u32) -> (next: Option<u32>)
    ensures
        exists|lot: u32| lot < ROULETTE_LOTS && next == spec_next_bounce(bounces_left, lot),
        bounces_left < 2 ==> next is None,
        next matches Some(n) ==> n == bounces_left - 1,
{
    let lot: u32 = draw_lot(ROULETTE_LOTS);
    next_bounce(bounces_left, lot)
}

/// A path ends: however the lots fall, the bounces left go down with every
/// bounce, so a path that starts with `bounces_left` bounces makes fewer than
/// that many further bounces.
pub proof fn lemma_path_shortens(bounces_left: u32, lot: u32)
    ensures
        spec_next_bounce(bounces_left, lot) matches Some(n) ==> 1 <= n < bounces_left,
{
}

} // verus!
