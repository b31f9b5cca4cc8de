//! Camera follow, one tick at a time.
//!
//! A tick is planned from what is known before any smoothing is done: whether
//! there is something to follow, and which bounds are in force. The smoothing
//! step itself belongs to the caller: [`tick`] takes it as a function, and a
//! caller that cannot hand it over as one carries out what [`plan`] asks for
//! and ends the tick with [`SmoothingState::commit`].

use crate::bounds::{Vector2, ViewportBounds};
use vstd::prelude::*;

verus! {

/// What a camera carries from one tick to the next. `V` is whatever the
/// caller's smoothing step computes with; this state only stores it.
#[derive(Debug)]
pub struct SmoothingState<V> {
    pub position: V,
    pub velocity: V,
}

/// What a tick does.
#[derive(Copy, Clone, Debug, PartialEq, Eq, Structural)]
pub enum FollowAction {
    /// Nothing is followed: position and velocity stay as they are.
    Hold,
    /// Smooth the camera's position toward `target`.
    Approach { target: Vector2 },
}

/// The action of a tick in which `followed` is the position of the followed
/// entity, if there is one, and `bounds` are the level bounds in force, if any.
pub open spec fn planned(
    followed: Option<Vector2>,
    bounds: Option<ViewportBounds>,
) -> FollowAction {
    match followed {
        None => FollowAction::Hold,
        Some(desired) => FollowAction::Approach {
            target: match bounds {
                Some(b) => b.clamped(desired),
                None => desired,
            },
        },
    }
}

/// Plans a tick: holds when nothing is followed, else approaches the followed
/// position, clamped to the bounds where bounds are in force.
pub fn plan(followed: Option<Vector2>, bounds: Option<ViewportBounds>) -> (action: FollowAction)
    ensures
        action == planned(followed, bounds),
{
    match followed {
        None => FollowAction::Hold,
        Some(desired) => {
            let target = match bounds {
                Some(b) => b.clamp(desired),
                None => desired,
            };
            FollowAction::Approach { target }
        },
    }
}

impl<V> SmoothingState<V> {
    /// The state after a tick whose smoothing step gave `stepped`, a new
    /// position and a new velocity, or after a tick without a step.
    pub open spec fn committed(self, stepped: Option<(V, V)>) -> Self {
        match stepped {
            None => self,
            Some((position, velocity)) => SmoothingState { position, velocity },
        }
    }

    /// Ends a tick: takes over the outcome of the smoothing step, or keeps
    /// position and velocity where no step was made.
    pub fn commit(&mut self, stepped: Option<(V, V)>)
        ensures
            *final(self) == old(self).committed(stepped),
    {
        match stepped {
            None => {},
            Some((position, velocity)) => {
                self.position = position;
                self.velocity = velocity;
            },
        }
    }
}

/// Whether `after` is the state in which a tick on `before` can end, when
/// `step` does the smoothing: the state is kept where nothing is followed,
/// and else holds an outcome of `step` on the position before the tick, the
/// planned target and the velocity before the tick.
pub open spec fn ticked<V, F: FnOnce(&V, Vector2, &V) -> (V, V)>(
    before: SmoothingState<V>,
    followed: Option<Vector2>,
    bounds: Option<ViewportBounds>,
    step: F,
    after: SmoothingState<V>,
) -> bool {
    match planned(followed, bounds) {
        FollowAction::Hold => after == before,
        FollowAction::Approach { target } => step.ensures(
            (&before.position, target, &before.velocity),
            (after.position, after.velocity),
        ),
    }
}

/// One tick of a camera that follows: plans the tick, lets `step` smooth the
/// camera toward the target where there is one, and commits the outcome.
/// `step` gets the camera's position, the target and the camera's velocity,
/// and gives the new position and the new velocity. Without anything to
/// follow, `step` is not called and the state stays as it is.
pub fn tick<V, F>(
    state: &mut SmoothingState<V>,
    followed: Option<Vector2>,
    bounds: Option<ViewportBounds>,
    step: F,
) where F: FnOnce(&V, Vector2, &V) -> (V, V)
    requires
        planned(followed, bounds) matches FollowAction::Approach { target } ==> step.requires(
            (&old(state).position, target, &old(state).velocity),
        ),
    ensures
        ticked(*old(state), followed, bounds, step, *final(state)),
{
    match plan(followed, bounds) {
        FollowAction::Hold => state.commit(None),
        FollowAction::Approach { target } => {
            let stepped = step(&state.position, target, &state.velocity);
            state.commit(Some(stepped));
        },
    }
}

/// A tick adds no chance of its own: where `step` has one outcome only for
/// what the tick hands to it, the tick has one outcome only.
pub proof fn lemma_tick_is_deterministic<V, F: FnOnce(&V, Vector2, &V) -> (V, V)>(
    before: SmoothingState<V>,
    followed: Option<Vector2>,
    bounds: Option<ViewportBounds>,
    step: F,
    one: SmoothingState<V>,
    other: SmoothingState<V>,
)
    requires
        forall|target: Vector2, a: (V, V), b: (V, V)|
            step.ensures((&before.position, target, &before.velocity), a) && step.ensures(
                (&before.position, target, &before.velocity),
                b,
            ) ==> a == b,
        ticked(before, followed, bounds, step, one),
        ticked(before, followed, bounds, step, other),
    ensures
        one == other,
{
}

/// A tick without a followed entity holds and leaves position and velocity
/// as they were, whatever the bounds and the step function are. So after an
/// idle tick between two ticks that step, the second of them resumes from
/// the state in which the first one ended.
pub proof fn lemma_idle_tick_preserves_state<V, F: FnOnce(&V, Vector2, &V) -> (V, V)>(
    before: SmoothingState<V>,
    bounds: Option<ViewportBounds>,
    step: F,
    after: SmoothingState<V>,
)
    requires
        ticked(before, None, bounds, step, after),
    ensures
        planned(None, bounds) == FollowAction::Hold,
        before.committed(None) == before,
        after == before,
        after.position == before.position,
        after.velocity == before.velocity,
{
}

} // verus!
