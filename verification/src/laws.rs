//! What holds of every run of the driver, whatever the schedule.

use crate::pipeline::{Action, Event, Phase, PipelineState, ShutdownBranch, WaitSet};
use crate::trace::{dispatched, events_read, state_after};
use vstd::prelude::*;

verus! {

/// The items that the source yields in a schedule, in order.
pub open spec fn items_of<T>(events: Seq<Event<T>>) -> Seq<T>
    decreases events.len(),
{
    if events.len() == 0 {
        Seq::empty()
    } else {
        let rest = items_of(events.drop_first());
        match events[0] {
            Event::Item(item) => seq![item] + rest,
            _ => rest,
        }
    }
}

/// The schedule in which the source yields `items` and nothing else happens.
pub open spec fn item_events<T>(items: Seq<T>) -> Seq<Event<T>> {
    Seq::new(items.len(), |i: int| Event::Item(items[i]))
}

/// The schedule holds the event `unwanted` nowhere.
pub open spec fn free_of<T>(events: Seq<Event<T>>, unwanted: Event<T>) -> bool {
    forall|i: int| 0 <= i < events.len() ==> events[i] != unwanted
}

/// The source does not report exhaustion anywhere in the schedule.
pub open spec fn never_exhausted<T>(events: Seq<Event<T>>) -> bool {
    free_of(events, Event::SourceExhausted)
}

/// The shutdown branch does not resolve anywhere in the schedule.
pub open spec fn never_shutdown<T>(events: Seq<Event<T>>) -> bool {
    free_of(events, Event::ShutdownReady)
}

/// A schedule that holds an event nowhere does not begin with it, and
/// holds it nowhere after its first event.
pub proof fn lemma_rest_is_free_of<T>(events: Seq<Event<T>>, unwanted: Event<T>)
    requires
        free_of(events, unwanted),
        events.len() > 0,
    ensures
        events[0] != unwanted,
        free_of(events.drop_first(), unwanted),
{
    let rest = events.drop_first();
    assert forall|i: int| 0 <= i < rest.len() implies rest[i] != unwanted by {
        assert(rest[i] == events[i + 1]);
    }
}

/// A run starts well formed, and every step keeps it so: a running driver
/// always has a branch left to wait on.
pub proof fn lemma_steps_keep_wf<T>(state: PipelineState, event: Event<T>)
    ensures
        PipelineState::initial(true).wf(),
        PipelineState::initial(false).wf(),
        state.wf() ==> state.next(event).wf(),
        state.wf() && !state.halted() ==> state.wait_set().source || state.wait_set().shutdown,
{
}

/// Whatever the schedule, a run that starts well formed ends well formed:
/// it has halted, or it still has a branch to wait on.
pub proof fn lemma_run_keeps_wf<T>(state: PipelineState, events: Seq<Event<T>>)
    requires
        state.wf(),
    ensures
        state_after(state, events).wf(),
        state_after(state, events).halted() || state_after(state, events).wait_set().source
            || state_after(state, events).wait_set().shutdown,
    decreases events.len(),
{
    if events.len() == 0 || state.halted() {
    } else {
        lemma_run_keeps_wf(state.next(events[0]), events.drop_first());
    }
}

/// A halted run is over for good: whatever arrives, the driver reads
/// nothing, dispatches nothing and only says to stop.
pub proof fn lemma_halt_is_final<T>(state: PipelineState, event: Event<T>, events: Seq<Event<T>>)
    requires
        state.halted(),
    ensures
        state.wait_set() == (WaitSet { source: false, shutdown: false }),
        state.next(event) == state.stopped(),
        state.action(event) == Action::<T>::Stop,
        state_after(state, events) == state,
        dispatched(state, events) == Seq::<T>::empty(),
        events_read(state, events) == 0,
{
}

/// Exactly-once dispatch: a dispatch is asked for exactly when an item
/// arrives while the source is waited on. It is then that item which is
/// handed out, and the driver stays exactly as it was: it keeps no trace
/// of the item and cannot hand it out again.
pub proof fn lemma_dispatch_iff_awaited_item<T>(state: PipelineState, event: Event<T>)
    ensures
        (state.action(event) is Dispatch) <==> (state.wait_set().source && event is Item),
        state.action(event) matches Action::Dispatch(item) ==> event == Event::Item(item)
            && state.next(event) == state,
{
}

/// Once the source is no longer waited on it never is again, and no event
/// leads to a dispatch.
pub proof fn lemma_source_stays_retired<T>(state: PipelineState, event: Event<T>)
    requires
        !state.wait_set().source,
    ensures
        !state.next(event).wait_set().source,
        !(state.action(event) is Dispatch),
{
}

/// A run over two schedules in a row is the run over the first, then the
/// run over the second from where the first ended.
pub proof fn lemma_run_concat<T>(state: PipelineState, first: Seq<Event<T>>, second: Seq<Event<T>>)
    ensures
        state_after(state, first + second) == state_after(state_after(state, first), second),
        dispatched(state, first + second) == dispatched(state, first) + dispatched(
            state_after(state, first),
            second,
        ),
        events_read(state, first + second) == events_read(state, first) + events_read(
            state_after(state, first),
            second,
        ),
    decreases first.len(),
{
    if first.len() == 0 {
        assert(first + second == second);
        assert(Seq::<T>::empty() + dispatched(state, second) == dispatched(state, second));
    } else if state.halted() {
        assert(Seq::<T>::empty() + Seq::<T>::empty() == Seq::<T>::empty());
    } else {
        let all = first + second;
        assert(all[0] == first[0]);
        assert(all.drop_first() == first.drop_first() + second);
        let mid = state.next(first[0]);
        lemma_run_concat(mid, first.drop_first(), second);
        let head = dispatched(mid, first.drop_first());
        let tail = dispatched(state_after(mid, first.drop_first()), second);
        match state.action(first[0]) {
            Action::Dispatch(item) => {
                assert(seq![item] + (head + tail) == (seq![item] + head) + tail);
            },
            _ => {},
        }
    }
}

/// The items of two schedules in a row are those of the first, then those
/// of the second.
pub proof fn lemma_items_concat<T>(first: Seq<Event<T>>, second: Seq<Event<T>>)
    ensures
        items_of(first + second) == items_of(first) + items_of(second),
    decreases first.len(),
{
    if first.len() == 0 {
        assert(first + second == second);
        assert(Seq::<T>::empty() + items_of(second) == items_of(second));
    } else {
        let all = first + second;
        assert(all[0] == first[0]);
        assert(all.drop_first() == first.drop_first() + second);
        lemma_items_concat(first.drop_first(), second);
        let head = items_of(first.drop_first());
        let tail = items_of(second);
        match first[0] {
            Event::Item(item) => {
                assert(seq![item] + (head + tail) == (seq![item] + head) + tail);
            },
            _ => {},
        }
    }
}

/// Order of dispatch: what a run dispatches is an initial stretch of what
/// the source yielded, item for item and in the same order. Nothing is
/// dispatched twice, out of turn, or without having been yielded.
pub proof fn lemma_dispatch_follows_source<T>(state: PipelineState, events: Seq<Event<T>>)
    ensures
        dispatched(state, events).is_prefix_of(items_of(events)),
    decreases events.len(),
{
    if events.len() == 0 || state.halted() {
    } else {
        lemma_dispatch_follows_source(state.next(events[0]), events.drop_first());
        let rest = dispatched(state.next(events[0]), events.drop_first());
        let items = items_of(events.drop_first());
        match events[0] {
            Event::Item(item) => {
                if state.source_live {
                    let out = seq![item] + rest;
                    let all = seq![item] + items;
                    assert(forall|i: int| 0 <= i < out.len() ==> out[i] == all[i]) by {
                        assert forall|i: int| 0 <= i < out.len() implies out[i] == all[i] by {
                            if i > 0 {
                                assert(out[i] == rest[i - 1]);
                                assert(all[i] == items[i - 1]);
                            }
                        }
                    }
                } else {
                    lemma_retired_source_dispatches_nothing(
                        state.next(events[0]),
                        events.drop_first(),
                    );
                }
            },
            _ => {},
        }
    }
}

/// A run whose source is no longer waited on dispatches nothing.
pub proof fn lemma_retired_source_dispatches_nothing<T>(
    state: PipelineState,
    events: Seq<Event<T>>,
)
    requires
        !state.wait_set().source,
    ensures
        dispatched(state, events) == Seq::<T>::empty(),
        !state_after(state, events).wait_set().source,
    decreases events.len(),
{
    if events.len() == 0 || state.halted() {
    } else {
        lemma_retired_source_dispatches_nothing(state.next(events[0]), events.drop_first());
    }
}

/// A run over a single event is one step of a running driver, and nothing
/// at all of a halted one.
pub proof fn lemma_run_single<T>(state: PipelineState, event: Event<T>)
    requires
        !state.halted(),
    ensures
        state_after(state, seq![event]) == state.next(event),
        events_read(state, seq![event]) == 1,
        dispatched(state, seq![event]) == match state.action(event) {
            Action::Dispatch(item) => seq![item],
            _ => Seq::<T>::empty(),
        },
{
    let events = seq![event];
    assert(events[0] == event);
    let rest = events.drop_first();
    let then = state.next(event);
    assert(rest.len() == 0);
    assert(state_after(then, rest) == then);
    assert(events_read(then, rest) == 0);
    assert(dispatched(then, rest) == Seq::<T>::empty());
    match state.action(event) {
        Action::Dispatch(item) => {
            assert(seq![item] + Seq::<T>::empty() == seq![item]);
        },
        _ => {},
    }
}

/// While the source only yields items a running driver dispatches each of
/// them, in order, and stays as it is.
pub proof fn lemma_items_are_dispatched<T>(state: PipelineState, items: Seq<T>)
    requires
        !state.halted(),
        state.source_live,
    ensures
        state_after(state, item_events(items)) == state,
        dispatched(state, item_events(items)) == items,
        events_read(state, item_events(items)) == items.len(),
    decreases items.len(),
{
    let events = item_events(items);
    if items.len() == 0 {
        assert(dispatched(state, events) == items);
    } else {
        assert(events[0] == Event::Item(items[0]));
        assert(events.drop_first() == item_events(items.drop_first()));
        lemma_items_are_dispatched(state, items.drop_first());
        assert(seq![items[0]] + items.drop_first() == items);
    }
}

/// A schedule of item events yields exactly its items.
pub proof fn lemma_items_of_item_events<T>(items: Seq<T>)
    ensures
        items_of(item_events(items)) == items,
    decreases items.len(),
{
    let events = item_events(items);
    if items.len() == 0 {
        assert(items_of(events) == items);
    } else {
        assert(events[0] == Event::Item(items[0]));
        assert(events.drop_first() == item_events(items.drop_first()));
        lemma_items_of_item_events(items.drop_first());
        assert(seq![items[0]] + items.drop_first() == items);
    }
}

/// As long as the source is live and nothing stops the run, every item
/// that the source yields is dispatched: none is dropped, and each event
/// of the schedule is read.
pub proof fn lemma_live_source_dispatches_all<T>(state: PipelineState, events: Seq<Event<T>>)
    requires
        !state.halted(),
        state.source_live,
        never_exhausted(events),
        state.shutdown == ShutdownBranch::Armed ==> never_shutdown(events),
    ensures
        !state_after(state, events).halted(),
        state_after(state, events).source_live,
        dispatched(state, events) == items_of(events),
        events_read(state, events) == events.len(),
    decreases events.len(),
{
    if events.len() == 0 {
    } else {
        lemma_rest_is_free_of(events, Event::SourceExhausted);
        if state.shutdown == ShutdownBranch::Armed {
            lemma_rest_is_free_of(events, Event::ShutdownReady);
        }
        lemma_live_source_dispatches_all(state.next(events[0]), events.drop_first());
    }
}

/// The schedule of a whole run without a shutdown notifier: the source
/// yields `items` and then reports exhaustion, and the branch that stands
/// in for the notifier resolves once, after `sentinel_at` of the source's
/// events.
pub open spec fn full_schedule<T>(items: Seq<T>, sentinel_at: int) -> Seq<Event<T>> {
    item_events(items).push(Event::SourceExhausted).insert(sentinel_at, Event::ShutdownReady)
}

/// Exhaustive dispatch: without a shutdown notifier, a source that yields
/// N items and then ends has each of its items dispatched exactly once, in
/// order, and the run then stops, wherever in the schedule the stand-in
/// for the notifier resolves.
pub proof fn lemma_exhaustive_dispatch<T>(items: Seq<T>, sentinel_at: int)
    requires
        0 <= sentinel_at <= items.len() + 1,
    ensures
        items_of(full_schedule(items, sentinel_at)) == items,
        dispatched(PipelineState::initial(false), full_schedule(items, sentinel_at)) == items,
        events_read(PipelineState::initial(false), full_schedule(items, sentinel_at))
            == items.len() + 2,
        state_after(PipelineState::initial(false), full_schedule(items, sentinel_at)).phase
            == Phase::Stopped,
{
    let start = PipelineState::initial(false);
    let exhausted = seq![Event::<T>::SourceExhausted];
    let resolved = seq![Event::<T>::ShutdownReady];
    let schedule = full_schedule(items, sentinel_at);
    let calm = PipelineState { shutdown: ShutdownBranch::Inert, ..start };
    let dry = PipelineState { source_live: false, ..start };
    assert(items_of(resolved) == Seq::<T>::empty()) by {
        assert(resolved.drop_first().len() == 0);
        assert(items_of(resolved.drop_first()) == Seq::<T>::empty());
    }
    assert(items_of(exhausted) == Seq::<T>::empty()) by {
        assert(exhausted.drop_first().len() == 0);
        assert(items_of(exhausted.drop_first()) == Seq::<T>::empty());
    }
    if sentinel_at <= items.len() {
        let head = items.take(sentinel_at);
        let tail = items.skip(sentinel_at);
        let first = item_events(head) + resolved;
        let second = item_events(tail) + exhausted;
        assert(schedule == first + second);
        lemma_items_are_dispatched(start, head);
        lemma_run_single(start, Event::<T>::ShutdownReady);
        lemma_run_concat(start, item_events(head), resolved);
        assert(state_after(start, first) == calm);
        lemma_items_are_dispatched(calm, tail);
        lemma_run_single(calm, Event::<T>::SourceExhausted);
        lemma_run_concat(calm, item_events(tail), exhausted);
        lemma_run_concat(start, first, second);
        assert(dispatched(start, first) == head);
        assert(dispatched(calm, second) == tail);
        assert(head + tail == items);
        lemma_items_of_item_events(head);
        lemma_items_of_item_events(tail);
        lemma_items_concat(item_events(head), resolved);
        lemma_items_concat(item_events(tail), exhausted);
        lemma_items_concat(first, second);
        assert(head + Seq::<T>::empty() == head);
        assert(tail + Seq::<T>::empty() == tail);
    } else {
        let first = item_events(items) + exhausted;
        assert(schedule == first + resolved);
        lemma_items_are_dispatched(start, items);
        lemma_run_single(start, Event::<T>::SourceExhausted);
        lemma_run_concat(start, item_events(items), exhausted);
        assert(state_after(start, first) == dry);
        lemma_run_single(dry, Event::<T>::ShutdownReady);
        lemma_run_concat(start, first, resolved);
        assert(dispatched(start, first) == items);
        assert(items + Seq::<T>::empty() == items);
        lemma_items_of_item_events(items);
        lemma_items_concat(item_events(items), exhausted);
        lemma_items_concat(first, resolved);
    }
}

/// Without a shutdown notifier only exhaustion ends a run: while the source
/// does not report it, the run goes on, and every item yielded so far has
/// been dispatched.
pub proof fn lemma_only_exhaustion_stops<T>(events: Seq<Event<T>>)
    requires
        never_exhausted(events),
    ensures
        !state_after(PipelineState::initial(false), events).halted(),
        dispatched(PipelineState::initial(false), events) == items_of(events),
        events_read(PipelineState::initial(false), events) == events.len(),
{
    lemma_live_source_dispatches_all(PipelineState::initial(false), events);
}

/// While an armed shutdown branch has not resolved, the run goes on and
/// the branch stays armed.
pub proof fn lemma_armed_run_goes_on<T>(state: PipelineState, events: Seq<Event<T>>)
    requires
        !state.halted(),
        state.shutdown == ShutdownBranch::Armed,
        never_shutdown(events),
    ensures
        !state_after(state, events).halted(),
        state_after(state, events).shutdown == ShutdownBranch::Armed,
        events_read(state, events) == events.len(),
    decreases events.len(),
{
    if events.len() == 0 {
    } else {
        lemma_rest_is_free_of(events, Event::ShutdownReady);
        lemma_armed_run_goes_on(state.next(events[0]), events.drop_first());
    }
}

/// Shutdown stops intake: when the notifier fires after the events of
/// `before`, the run dispatches what it dispatched up to then, which is no
/// more than the source had yielded, and halts. Whatever the schedule holds
/// `after` that is neither read nor dispatched.
pub proof fn lemma_shutdown_stops_intake<T>(
    state: PipelineState,
    before: Seq<Event<T>>,
    after: Seq<Event<T>>,
)
    requires
        !state.halted(),
        state.shutdown == ShutdownBranch::Armed,
        never_shutdown(before),
    ensures
        ({
            let schedule = before + seq![Event::<T>::ShutdownReady] + after;
            &&& dispatched(state, schedule) == dispatched(state, before)
            &&& dispatched(state, schedule).len() <= items_of(before).len()
            &&& events_read(state, schedule) == before.len() + 1
            &&& state_after(state, schedule).phase == Phase::Stopping
            &&& state_after(state, schedule).wait_set() == (WaitSet {
                source: false,
                shutdown: false,
            })
        }),
{
    let fired = seq![Event::<T>::ShutdownReady];
    let armed = state_after(state, before);
    lemma_armed_run_goes_on(state, before);
    lemma_run_single(armed, Event::<T>::ShutdownReady);
    lemma_run_concat(state, before, fired);
    lemma_run_concat(state, before + fired, after);
    lemma_dispatch_follows_source(state, before);
    assert(dispatched(state, before) + Seq::<T>::empty() == dispatched(state, before));
}

/// Exhaustion is final: once the source has reported it, nothing more is
/// dispatched and the source is never waited on again, whatever arrives.
/// The run is then over unless the shutdown branch is still to resolve.
pub proof fn lemma_exhaustion_is_final<T>(
    state: PipelineState,
    before: Seq<Event<T>>,
    after: Seq<Event<T>>,
)
    ensures
        ({
            let reported = before + seq![Event::<T>::SourceExhausted];
            &&& dispatched(state, reported + after) == dispatched(state, before)
            &&& !state_after(state, reported + after).wait_set().source
            &&& !state_after(state, reported).wait_set().source
            &&& state_after(state, reported).halted() || state_after(state, reported).shutdown
                != ShutdownBranch::Inert
        }),
{
    let exhausted = seq![Event::<T>::SourceExhausted];
    let reached = state_after(state, before);
    lemma_run_concat(state, before, exhausted);
    lemma_run_concat(state, before + exhausted, after);
    if !reached.halted() {
        lemma_run_single(reached, Event::<T>::SourceExhausted);
    }
    lemma_retired_source_dispatches_nothing(state_after(state, before + exhausted), after);
    assert(dispatched(state, before) + Seq::<T>::empty() == dispatched(state, before));
}

/// Isolation: a run with one more item in its schedule is the same run
/// with that item dispatched in its place. What came before and what comes
/// after is read and dispatched as if the item had not been there, and the
/// driver ends in the same state: nothing of an item, and so nothing of
/// what becomes of its work, reaches any other.
pub proof fn lemma_dispatch_is_isolated<T>(
    state: PipelineState,
    before: Seq<Event<T>>,
    item: T,
    after: Seq<Event<T>>,
)
    requires
        !state_after(state, before).halted(),
        state_after(state, before).source_live,
    ensures
        ({
            let with_item = before + seq![Event::Item(item)] + after;
            let reached = state_after(state, before);
            &&& dispatched(state, with_item) == dispatched(state, before).push(item) + dispatched(
                reached,
                after,
            )
            &&& dispatched(state, before + after) == dispatched(state, before) + dispatched(
                reached,
                after,
            )
            &&& state_after(state, with_item) == state_after(state, before + after)
            &&& events_read(state, with_item) == events_read(state, before + after) + 1
        }),
{
    let one = seq![Event::Item(item)];
    let reached = state_after(state, before);
    lemma_run_single(reached, Event::Item(item));
    lemma_run_concat(state, before, one);
    lemma_run_concat(state, before + one, after);
    lemma_run_concat(state, before, after);
    assert(dispatched(state, before) + seq![item] == dispatched(state, before).push(item));
}

} // verus!
