use vstd::prelude::*;

verus! {

/// What the scene made of one ray: it left the scene without striking a
/// surface, it struck one and the material absorbed it, or the material
/// scattered it onward.
#[derive(Clone, Copy, PartialEq, Eq, Structural, Debug)]
pub enum BounceEvent {
    Miss,
    Absorbed,
    Scattered,
}

/// The integrator's decision for one ray.
#[derive(Clone, Copy, PartialEq, Eq, Structural, Debug)]
pub enum TraceAction {
    /// Contribute exact black: the recursion budget is exhausted, or the
    /// ray was absorbed.
    Black,
    /// Contribute the background gradient for the ray's direction.
    Background,
    /// Follow the scattered ray with the remaining budget and weight its
    /// contribution by the material's attenuation.
    Recurse { remaining: u32 },
}

/// Bounce control of the recursive integrator: a ray with no budget left is
/// black whatever the scene produced; otherwise a miss shows the background,
/// an absorbed ray is black, and a scattered ray is followed with one fewer
/// bounce.
pub open spec fn trace_decision(depth: u32, event: BounceEvent) -> TraceAction {
    if depth == 0 {
        TraceAction::Black
    } else {
        match event {
            BounceEvent::Miss => TraceAction::Background,
            BounceEvent::Absorbed => TraceAction::Black,
            BounceEvent::Scattered => TraceAction::Recurse { remaining: (depth - 1) as u32 },
        }
    }
}

/// One control step of the integrator. The caller resolves the ray against
/// the scene and the struck material, reports the outcome, and performs the
/// returned action.
pub fn ray_color_step(depth: u32, event: BounceEvent) -> (action: TraceAction)
    ensures
        action == trace_decision(depth, event),
        depth == 0 ==> action == TraceAction::Black,
        (action matches TraceAction::Recurse { remaining } ==> remaining < depth),
{
    if depth == 0 {
        TraceAction::Black
    } else {
        match event {
            BounceEvent::Miss => TraceAction::Background,
            BounceEvent::Absorbed => TraceAction::Black,
            BounceEvent::Scattered => TraceAction::Recurse { remaining: depth - 1 },
        }
    }
}

/// With the recursion budget exhausted the integrator answers exact black,
/// regardless of what the scene and its materials would have produced.
pub proof fn lemma_exhausted_budget_is_black(event: BounceEvent)
    ensures
        trace_decision(0, event) == TraceAction::Black,
{
}

/// Every bounce chain terminates: each recursion carries a strictly smaller
/// budget, so a ray started with budget `depth` is resolved after at most
/// `depth` bounces.
pub proof fn lemma_bounce_budget_strictly_decreases(depth: u32, event: BounceEvent)
    ensures
        (trace_decision(depth, event) matches TraceAction::Recurse { remaining }
            ==> remaining < depth),
{
}

} // verus!
