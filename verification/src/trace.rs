//! What a run does with a whole schedule of events.

use crate::pipeline::{Action, Event, PipelineState};
use vstd::prelude::*;

verus! {

/// The state in which a run that starts in `state` leaves its loop over
/// `events`: events are taken until the run halts.
pub open spec fn state_after<T>(state: PipelineState, events: Seq<Event<T>>) -> PipelineState
    decreases events.len(),
{
    if events.len() == 0 || state.halted() {
        state
    } else {
        state_after(state.next(events[0]), events.drop_first())
    }
}

/// The items that the run dispatches, in dispatch order.
pub open spec fn dispatched<T>(state: PipelineState, events: Seq<Event<T>>) -> Seq<T>
    decreases events.len(),
{
    if events.len() == 0 || state.halted() {
        Seq::empty()
    } else {
        let rest = dispatched(state.next(events[0]), events.drop_first());
        match state.action(events[0]) {
            Action::Dispatch(item) => seq![item] + rest,
            _ => rest,
        }
    }
}

/// How many of the events the run takes before it halts.
pub open spec fn events_read<T>(state: PipelineState, events: Seq<Event<T>>) -> nat
    decreases events.len(),
{
    if events.len() == 0 || state.halted() {
        0
    } else {
        1 + events_read(state.next(events[0]), events.drop_first())
    }
}

} // verus!
