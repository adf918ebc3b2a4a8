use vstd::prelude::*;

verus! {

/// What tracing one ray against the scene produced.
#[derive(Clone, Copy, Debug, PartialEq, Eq, Structural)]
pub enum TraceOutcome {
    /// The ray hit nothing and escapes to the background.
    Missed,
    /// The ray hit a surface whose material absorbed it.
    Absorbed,
    /// The ray hit a surface whose material scattered it into a new ray.
    Scattered,
}

/// How a light path ended, which fixes what it contributes before attenuation:
/// the background gradient for an escaped path, black otherwise.
#[derive(Clone, Copy, Debug, PartialEq, Eq, Structural)]
pub enum PathEnd {
    /// The bounce budget ran out before the path escaped.
    DepthExhausted,
    /// The path left the scene and sees the background.
    Escaped,
    /// A material absorbed the path.
    Absorbed,
}

/// The state of a light path between two traces.
#[derive(Clone, Copy, Debug, PartialEq, Eq, Structural)]
pub enum PathStep {
    /// Trace the current ray; the value is the bounce budget left, counting this trace.
    Trace(u32),
    /// The path is finished.
    Done(PathEnd),
}

/// The step a path takes with `depth` bounces of budget: nothing is traced
/// when the budget is spent.
pub open spec fn start_step(depth: u32) -> PathStep {
    if depth == 0 {
        PathStep::Done(PathEnd::DepthExhausted)
    } else {
        PathStep::Trace(depth)
    }
}

/// The step after tracing a ray with `depth` bounces of budget: a scattered
/// ray is traced again with one bounce less.
pub open spec fn next_step(depth: u32, outcome: TraceOutcome) -> PathStep {
    match outcome {
        TraceOutcome::Missed => PathStep::Done(PathEnd::Escaped),
        TraceOutcome::Absorbed => PathStep::Done(PathEnd::Absorbed),
        TraceOutcome::Scattered => if depth <= 1 {
            PathStep::Done(PathEnd::DepthExhausted)
        } else {
            PathStep::Trace((depth - 1) as u32)
        },
    }
}

/// Where a path stands after it has been handed `outcomes`, one per trace,
/// until it is finished or the outcomes run out.
pub open spec fn run(step: PathStep, outcomes: Seq<TraceOutcome>) -> PathStep
    decreases outcomes.len(),
{
    match step {
        PathStep::Done(_) => step,
        PathStep::Trace(depth) => if outcomes.len() == 0 {
            step
        } else {
            run(next_step(depth, outcomes[0]), outcomes.drop_first())
        },
    }
}

/// How many of `outcomes` a path consumes, one per trace, before it is finished.
pub open spec fn traces(step: PathStep, outcomes: Seq<TraceOutcome>) -> nat
    decreases outcomes.len(),
{
    match step {
        PathStep::Done(_) => 0,
        PathStep::Trace(depth) => if outcomes.len() == 0 {
            0
        } else {
            1 + traces(next_step(depth, outcomes[0]), outcomes.drop_first())
        },
    }
}

/// A path with `depth` bounces of budget makes at most `depth` traces, and
/// it is finished once it has been handed `depth` outcomes; when every one of
/// them scattered, the budget is what ended it.
proof fn lemma_trace_budget(depth: u32, outcomes: Seq<TraceOutcome>)
    requires
        depth > 0,
    ensures
        traces(PathStep::Trace(depth), outcomes) <= depth,
        outcomes.len() >= depth ==> run(PathStep::Trace(depth), outcomes) is Done,
        outcomes.len() >= depth && (forall|i: int|
            0 <= i < depth ==> outcomes[i] == TraceOutcome::Scattered) ==> run(
            PathStep::Trace(depth),
            outcomes,
        ) == PathStep::Done(PathEnd::DepthExhausted),
    decreases depth,
{
    if outcomes.len() > 0 {
        let rest = outcomes.drop_first();
        let next = next_step(depth, outcomes[0]);
        match next {
            PathStep::Done(_) => {
                assert(traces(next, rest) == 0);
                assert(run(next, rest) == next);
            },
            PathStep::Trace(d) => {
                lemma_trace_budget(d, rest);
                if outcomes.len() >= depth && (forall|j: int|
                    0 <= j < depth ==> outcomes[j] == TraceOutcome::Scattered) {
                    assert forall|i: int| 0 <= i < d implies rest[i] == TraceOutcome::Scattered by {
                        assert(rest[i] == outcomes[i + 1]);
                    }
                }
            },
        }
    }
}

/// Every light path terminates within its bounce budget, whatever the scene:
/// starting with `max_depth` bounces it makes at most `max_depth` traces and is
/// finished after that many outcomes. A path that scatters at every trace, as
/// between two facing mirrors, ends because its budget is spent.
pub proof fn lemma_path_terminates(max_depth: u32, outcomes: Seq<TraceOutcome>)
    ensures
        traces(start_step(max_depth), outcomes) <= max_depth,
        outcomes.len() >= max_depth ==> run(start_step(max_depth), outcomes) is Done,
        outcomes.len() >= max_depth && (forall|i: int|
            0 <= i < max_depth ==> outcomes[i] == TraceOutcome::Scattered) ==> run(
            start_step(max_depth),
            outcomes,
        ) == PathStep::Done(PathEnd::DepthExhausted),
{
    if max_depth > 0 {
        lemma_trace_budget(max_depth, outcomes);
    } else {
        assert(traces(start_step(max_depth), outcomes) == 0);
        assert(run(start_step(max_depth), outcomes) == start_step(max_depth));
    }
}

/// A path started with no bounce budget traces nothing and ends as spent,
/// which contributes black, whatever the ray and the scene.
pub proof fn lemma_zero_depth_is_black(outcomes: Seq<TraceOutcome>)
    ensures
        traces(start_step(0), outcomes) == 0,
        run(start_step(0), outcomes) == PathStep::Done(PathEnd::DepthExhausted),
{
    assert(traces(start_step(0), outcomes) == 0);
    assert(run(start_step(0), outcomes) == start_step(0));
}

/// Starts a path with a budget of `depth` bounces.
pub fn start(depth: u32) -> (r: PathStep)
    ensures
        r == start_step(depth),
        depth == 0 ==> r == PathStep::Done(PathEnd::DepthExhausted),
{
    if depth == 0 {
        PathStep::Done(PathEnd::DepthExhausted)
    } else {
        PathStep::Trace(depth)
    }
}

/// Moves a path on after a trace made with `depth` bounces of budget.
pub fn advance(depth: u32, outcome: TraceOutcome) -> (r: PathStep)
    requires
        depth > 0,
    ensures
        r == next_step(depth, outcome),
{
    match outcome {
        TraceOutcome::Missed => PathStep::Done(PathEnd::Escaped),
        TraceOutcome::Absorbed => PathStep::Done(PathEnd::Absorbed),
        TraceOutcome::Scattered => if depth == 1 {
            PathStep::Done(PathEnd::DepthExhausted)
        } else {
            PathStep::Trace(depth - 1)
        },
    }
}

} // verus!
