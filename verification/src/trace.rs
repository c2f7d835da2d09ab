//! Termination control of the recursive color estimator.
//!
//! A ray's color is estimated by following bounces: each bounce either
//! misses the whole scene, is absorbed by the surface it hits, or scatters
//! into a new ray.  The estimator stops with black when the bounce budget
//! is exhausted or a surface absorbs the ray, and stops with the sky
//! gradient when the ray escapes; otherwise it recurses with one bounce
//! fewer.  The color arithmetic runs outside this crate; the decision at
//! every bounce, and the shape of the whole chain, is fixed here.

use vstd::prelude::*;

verus! {

/// What the scene answered for one cast of a ray.
#[derive(Clone, Copy, Debug, PartialEq, Eq)]
pub enum BounceEvent {
    /// The ray hit no object: it escapes to the sky.
    Miss,
    /// The ray hit an object whose material absorbed it.
    Absorbed,
    /// The ray hit an object whose material scattered it into a new ray.
    Scattered,
}

/// What the estimator does after seeing one event.
#[derive(Clone, Copy, Debug, PartialEq, Eq)]
pub enum TraceAction {
    /// Stop and emit the sky gradient for the current ray.
    EmitSky,
    /// Stop and emit black.
    EmitBlack,
    /// Cast the scattered ray and ask again.
    Bounce,
}

/// Where a whole bounce chain ended.  `bounces` counts the scattering
/// events on the way, which is the number of attenuation factors the
/// emitted base color is multiplied by.
#[derive(Clone, Copy, Debug, PartialEq, Eq)]
pub enum TraceResult {
    /// The chain ended on a ray that escaped: the estimate is the sky
    /// gradient of that ray under `bounces` attenuations.
    Sky { bounces: usize },
    /// The chain ended in absorption or an exhausted budget: the estimate
    /// is black, whatever was attenuated on the way.
    Black { bounces: usize },
    /// The event stream ended while budget remained: nothing was emitted.
    Unresolved,
}

/// The result of following one stream of events with a given budget:
/// an exhausted budget emits black at once; otherwise a miss emits the
/// sky, absorption emits black, and a scattering consumes one unit of
/// budget and continues with the rest of the stream.
pub open spec fn trace_spec(depth: nat, events: Seq<BounceEvent>) -> TraceResult
    decreases events.len(),
{
    if depth == 0 {
        TraceResult::Black { bounces: 0 }
    } else if events.len() == 0 {
        TraceResult::Unresolved
    } else {
        match events.first() {
            BounceEvent::Miss => TraceResult::Sky { bounces: 0 },
            BounceEvent::Absorbed => TraceResult::Black { bounces: 0 },
            BounceEvent::Scattered => match trace_spec((depth - 1) as nat, events.drop_first()) {
                TraceResult::Sky { bounces } => TraceResult::Sky {
                    bounces: (bounces + 1) as usize,
                },
                TraceResult::Black { bounces } => TraceResult::Black {
                    bounces: (bounces + 1) as usize,
                },
                TraceResult::Unresolved => TraceResult::Unresolved,
            },
        }
    }
}

/// A chain with no budget left emits black before looking at the scene.
pub proof fn lemma_depth_zero_emits_black(events: Seq<BounceEvent>)
    ensures
        trace_spec(0, events) == (TraceResult::Black { bounces: 0usize }),
{
}

/// A ray that misses the whole scene is answered with the sky gradient,
/// unattenuated, under any positive budget.
pub proof fn lemma_miss_emits_sky(depth: nat, events: Seq<BounceEvent>)
    requires
        depth >= 1,
        events.len() >= 1,
        events.first() == BounceEvent::Miss,
    ensures
        trace_spec(depth, events) == (TraceResult::Sky { bounces: 0usize }),
{
}

/// A chain never scatters more often than its budget allows.
pub proof fn lemma_bounces_within_budget(depth: nat, events: Seq<BounceEvent>)
    ensures
        trace_spec(depth, events) matches TraceResult::Sky { bounces } ==> bounces <= depth,
        trace_spec(depth, events) matches TraceResult::Black { bounces } ==> bounces <= depth,
    decreases events.len(),
{
    if depth > 0 && events.len() > 0 && events.first() == BounceEvent::Scattered {
        lemma_bounces_within_budget((depth - 1) as nat, events.drop_first());
    }
}

/// `r` with `extra` more scattering events counted in front of it.
spec fn bump(r: TraceResult, extra: nat) -> TraceResult {
    match r {
        TraceResult::Sky { bounces } => TraceResult::Sky { bounces: (bounces + extra) as usize },
        TraceResult::Black { bounces } => TraceResult::Black {
            bounces: (bounces + extra) as usize,
        },
        TraceResult::Unresolved => TraceResult::Unresolved,
    }
}

/// Consuming one scattering event prepends one bounce to whatever the
/// rest of the chain ends in.
proof fn lemma_trace_spec_scatter_step(depth: nat, events: Seq<BounceEvent>)
    requires
        depth >= 1,
        events.len() >= 1,
        events.first() == BounceEvent::Scattered,
    ensures
        trace_spec(depth, events) == bump(trace_spec((depth - 1) as nat, events.drop_first()), 1),
{
    lemma_bounces_within_budget((depth - 1) as nat, events.drop_first());
}

/// The running state of one chain: how much bounce budget is left.
pub struct TraceState {
    /// Bounces the chain may still take.
    pub depth_left: u8,
}

impl TraceState {
    /// Begin a chain with the camera's full bounce budget.
    pub fn start(max_depth: u8) -> (s: Self)
        ensures
            s.depth_left == max_depth,
    {
        TraceState { depth_left: max_depth }
    }

    /// Decide one bounce.  The caller casts the current ray, reports what
    /// the scene answered, and must emit what the returned action says:
    /// the sky gradient of the current ray, black, or nothing yet because
    /// the scattered ray is to be cast next.
    pub fn step(&mut self, event: BounceEvent) -> (action: TraceAction)
        ensures
            old(self).depth_left == 0 ==> action == TraceAction::EmitBlack,
            old(self).depth_left > 0 && event == BounceEvent::Miss ==> action
                == TraceAction::EmitSky,
            old(self).depth_left > 0 && event == BounceEvent::Absorbed ==> action
                == TraceAction::EmitBlack,
            old(self).depth_left > 0 && event == BounceEvent::Scattered ==> action
                == TraceAction::Bounce,
            action == TraceAction::Bounce ==> final(self).depth_left == old(self).depth_left - 1,
            action != TraceAction::Bounce ==> final(self).depth_left == old(self).depth_left,
    {
        if self.depth_left == 0 {
            TraceAction::EmitBlack
        } else {
            match event {
                BounceEvent::Miss => TraceAction::EmitSky,
                BounceEvent::Absorbed => TraceAction::EmitBlack,
                BounceEvent::Scattered => {
                    self.depth_left = self.depth_left - 1;
                    TraceAction::Bounce
                },
            }
        }
    }
}

/// Follow a whole stream of events with the given budget.  This is the
/// color estimator with the arithmetic stripped away: the result says
/// what base color the chain emits and how many attenuation factors
/// apply to it.
pub fn trace_events(max_depth: u8, events: &Vec<BounceEvent>) -> (r: TraceResult)
    ensures
        r == trace_spec(max_depth as nat, events@),
{
    proof {
        assert(events@.skip(0) =~= events@);
    }
    trace_events_from(max_depth, events, 0)
}

/// The same following of a stream, run as a loop with an accumulator and
/// driven by [`TraceState::step`] — the shape a render loop takes when it
/// unrolls the recursion.  Its contract is [`trace_events`]'s: the
/// recursive form and the loop form agree on every budget and stream.
pub fn trace_events_iter(max_depth: u8, events: &Vec<BounceEvent>) -> (r: TraceResult)
    ensures
        r == trace_spec(max_depth as nat, events@),
{
    let mut state = TraceState::start(max_depth);
    let mut taken: usize = 0;
    let mut i: usize = 0;
    proof {
        assert(events@.skip(0) =~= events@);
    }
    while i < events.len()
        invariant
            i <= events@.len(),
            state.depth_left <= max_depth,
            taken == max_depth - state.depth_left,
            trace_spec(max_depth as nat, events@) == bump(
                trace_spec(state.depth_left as nat, events@.skip(i as int)),
                taken as nat,
            ),
        decreases events@.len() - i,
    {
        let ghost pre_depth = state.depth_left;
        let ghost rest = events@.skip(i as int);
        let event = events[i];
        let action = state.step(event);
        match action {
            TraceAction::EmitSky => {
                return TraceResult::Sky { bounces: taken };
            },
            TraceAction::EmitBlack => {
                return TraceResult::Black { bounces: taken };
            },
            TraceAction::Bounce => {
                proof {
                    lemma_trace_spec_scatter_step(pre_depth as nat, rest);
                    assert(rest.drop_first() =~= events@.skip(i as int + 1));
                    let sub = trace_spec((pre_depth - 1) as nat, events@.skip(i as int + 1));
                    lemma_bounces_within_budget((pre_depth - 1) as nat, events@.skip(i as int + 1));
                    assert(bump(bump(sub, 1), taken as nat) == bump(sub, taken as nat + 1));
                }
                taken = taken + 1;
                i = i + 1;
            },
        }
    }
    if state.depth_left == 0 {
        TraceResult::Black { bounces: taken }
    } else {
        TraceResult::Unresolved
    }
}

fn trace_events_from(depth: u8, events: &Vec<BounceEvent>, at: usize) -> (r: TraceResult)
    requires
        at <= events@.len(),
    ensures
        r == trace_spec(depth as nat, events@.skip(at as int)),
    decreases events@.len() - at,
{
    if depth == 0 {
        return TraceResult::Black { bounces: 0 };
    }
    if at == events.len() {
        return TraceResult::Unresolved;
    }
    let event = events[at];
    match event {
        BounceEvent::Miss => TraceResult::Sky { bounces: 0 },
        BounceEvent::Absorbed => TraceResult::Black { bounces: 0 },
        BounceEvent::Scattered => {
            let rest = trace_events_from(depth - 1, events, at + 1);
            proof {
                assert(events@.skip(at as int).drop_first() =~= events@.skip(at as int + 1));
                lemma_bounces_within_budget((depth - 1) as nat, events@.skip(at as int + 1));
            }
            match rest {
                TraceResult::Sky { bounces } => TraceResult::Sky { bounces: bounces + 1 },
                TraceResult::Black { bounces } => TraceResult::Black { bounces: bounces + 1 },
                TraceResult::Unresolved => TraceResult::Unresolved,
            }
        },
    }
}

} // verus!
