use vstd::prelude::*;

verus! {

/// The default cap on the number of bounces along one camera ray.
pub const MAX_DEPTH: usize = 50;

/// What the radiance integrator does with a ray after querying the scene.
#[derive(Copy, Clone, PartialEq, Eq, Debug, Structural)]
pub enum Bounce {
    /// Nothing was hit: the ray sees the sky gradient.
    Background,
    /// A surface was hit but the ray ends there (not scattered, or the depth cap is reached):
    /// it contributes black.
    Absorbed,
    /// The scattered ray is traced further, one level deeper, and its colour is attenuated.
    Continue,
}

/// The termination policy of the integrator, for a ray traced at `depth` bounces.
pub open spec fn bounce_spec(hit: bool, scattered: bool, depth: nat, max_depth: nat) -> Bounce {
    if !hit {
        Bounce::Background
    } else if scattered && depth < max_depth {
        Bounce::Continue
    } else {
        Bounce::Absorbed
    }
}

/// Decides what follows a scene query: `hit` tells whether a surface was hit, `scattered`
/// whether its material scattered the ray.
pub fn next_bounce(hit: bool, scattered: bool, depth: usize, max_depth: usize) -> (b: Bounce)
    ensures
        b == bounce_spec(hit, scattered, depth as nat, max_depth as nat),
{
    if !hit {
        Bounce::Background
    } else if scattered && depth < max_depth {
        Bounce::Continue
    } else {
        Bounce::Absorbed
    }
}

/// The number of rays traced for one camera ray, when the outcome at depth `depth + i` is
/// `events[i]` (hit, scattered): the path stops at the first outcome that is not `Continue`.
pub open spec fn path_len(events: Seq<(bool, bool)>, depth: nat, max_depth: nat) -> nat
    decreases events.len(),
{
    if events.len() == 0 {
        0
    } else if bounce_spec(events[0].0, events[0].1, depth, max_depth) == Bounce::Continue {
        1 + path_len(events.drop_first(), depth + 1, max_depth)
    } else {
        1
    }
}

/// Whatever the scene and materials do, a ray started at `depth` is followed through at most
/// `max_depth - depth + 1` scene queries: the depth cap alone bounds the recursion.
pub proof fn lemma_depth_cap_bounds_path(events: Seq<(bool, bool)>, depth: nat, max_depth: nat)
    requires
        depth <= max_depth,
    ensures
        path_len(events, depth, max_depth) <= max_depth - depth + 1,
    decreases events.len(),
{
    if events.len() > 0 && bounce_spec(events[0].0, events[0].1, depth, max_depth)
        == Bounce::Continue {
        lemma_depth_cap_bounds_path(events.drop_first(), depth + 1, max_depth);
    }
}

} // verus!
