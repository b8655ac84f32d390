use vstd::prelude::*;

verus! {

/// Depth at which the integrator stops following a path and returns black.
pub const MAX_DEPTH: usize = 50;

/// What the scene and the hit material did with a ray.
#[derive(Clone, Copy, Debug, PartialEq, Eq, Structural)]
pub enum Interaction {
    /// The ray hit nothing: it sees the sky.
    Miss,
    /// The ray hit a surface whose material absorbed it.
    Absorbed,
    /// The ray hit a surface whose material scattered it.
    Scattered,
}

/// What the integrator does next with a path.
#[derive(Clone, Copy, Debug, PartialEq, Eq, Structural)]
pub enum Step {
    /// Return the sky gradient for the current ray, weighted by the attenuation so far.
    Sky,
    /// Return black.
    Black,
    /// Follow the scattered ray at the given depth.
    Bounce(usize),
}

/// The integrator's decision at `depth` after the given interaction.
pub open spec fn step_spec(depth: nat, max_depth: nat, e: Interaction) -> Step {
    if depth >= max_depth {
        Step::Black
    } else {
        match e {
            Interaction::Miss => Step::Sky,
            Interaction::Absorbed => Step::Black,
            Interaction::Scattered => Step::Bounce((depth + 1) as usize),
        }
    }
}

/// How a path that starts at `depth` ends when the scene answers its
/// successive queries with `events`: `None` while the events run out first.
pub open spec fn path_end(depth: nat, max_depth: nat, events: Seq<Interaction>) -> Option<Step>
    decreases events.len(),
{
    if depth >= max_depth {
        Some(Step::Black)
    } else if events.len() == 0 {
        None
    } else {
        match step_spec(depth, max_depth, events[0]) {
            Step::Bounce(_) => path_end(depth + 1, max_depth, events.drop_first()),
            s => Some(s),
        }
    }
}

/// How many times a path that starts at `depth` queries the scene.
pub open spec fn path_queries(depth: nat, max_depth: nat, events: Seq<Interaction>) -> nat
    decreases events.len(),
{
    if depth >= max_depth || events.len() == 0 {
        0
    } else {
        match step_spec(depth, max_depth, events[0]) {
            Step::Bounce(_) => 1 + path_queries(depth + 1, max_depth, events.drop_first()),
            _ => 1,
        }
    }
}

/// Whether a ray at `depth` is still traced; from the cap on it is black
/// without querying the scene.
pub fn may_trace(depth: usize, max_depth: usize) -> (r: bool)
    ensures
        r == (depth < max_depth),
{
    depth < max_depth
}

/// The integrator's decision for a ray at `depth`: past the cap black; on a
/// miss the sky; on absorption black; on scattering, the next depth.
pub fn next_step(depth: usize, max_depth: usize, event: Interaction) -> (r: Step)
    ensures
        r == step_spec(depth as nat, max_depth as nat, event),
        r matches Step::Bounce(d) ==> d == depth + 1 && d <= max_depth,
{
    if depth >= max_depth {
        Step::Black
    } else {
        match event {
            Interaction::Miss => Step::Sky,
            Interaction::Absorbed => Step::Black,
            Interaction::Scattered => Step::Bounce(depth + 1),
        }
    }
}

/// From `depth`, a path queries the scene at most `max_depth - depth` times;
/// if every answer in reach is a scattering, it ends black after exactly that many.
proof fn lemma_depth_cap_from(depth: nat, max_depth: nat, events: Seq<Interaction>)
    requires
        depth <= max_depth,
    ensures
        path_queries(depth, max_depth, events) <= max_depth - depth,
        events.len() >= max_depth - depth && (forall|i: int|
            0 <= i < max_depth - depth ==> events[i] == Interaction::Scattered) ==> path_end(
            depth,
            max_depth,
            events,
        ) == Some(Step::Black) && path_queries(depth, max_depth, events) == max_depth - depth,
    decreases events.len(),
{
    if depth < max_depth && events.len() > 0 {
        let rest = events.drop_first();
        lemma_depth_cap_from(depth + 1, max_depth, rest);
        if events.len() >= max_depth - depth && (forall|i: int|
            0 <= i < max_depth - depth ==> events[i] == Interaction::Scattered) {
            assert(events[0] == Interaction::Scattered);
            assert forall|i: int| 0 <= i < max_depth - (depth + 1) implies rest[i]
                == Interaction::Scattered by {
                assert(rest[i] == events[i + 1]);
            }
        }
    }
}

/// The recursion never passes the depth cap: whatever the scene answers, a
/// path started at depth 0 queries the scene at most `max_depth` times, and a
/// path that scatters every time (two facing mirrors) ends black after
/// exactly `max_depth` queries.
pub proof fn lemma_depth_cap(max_depth: nat, events: Seq<Interaction>)
    ensures
        path_queries(0, max_depth, events) <= max_depth,
        events.len() >= max_depth && (forall|i: int|
            0 <= i < max_depth ==> events[i] == Interaction::Scattered) ==> path_end(
            0,
            max_depth,
            events,
        ) == Some(Step::Black) && path_queries(0, max_depth, events) == max_depth,
{
    lemma_depth_cap_from(0, max_depth, events);
}

} // verus!
