//! Runs of a stream: what holds of every sequence of emits and polls.
//!
//! A run is a sequence of steps applied to one stream state. Whichever handle
//! a producer or the consumer holds, its calls are steps on that one state,
//! so what is proved of runs holds however the stream is shared.

use futures::task::Task;
use vstd::prelude::*;

use crate::msg::{Msg, Readiness};
use crate::stream::StreamState;

verus! {

/// One call on a stream.
pub enum Step {
    /// A producer emits an event.
    Emit(Msg),
    /// The consumer polls, on behalf of the task with this handle.
    Poll(Task),
}

/// The state after one step.
pub open spec fn apply(state: StreamState, step: Step) -> StreamState {
    match step {
        Step::Emit(event) => state.emit(event),
        Step::Poll(handle) => state.poll(handle),
    }
}

/// The state after each of `steps` in turn.
pub open spec fn run(state: StreamState, steps: Seq<Step>) -> StreamState
    decreases steps.len(),
{
    if steps.len() == 0 {
        state
    } else {
        run(apply(state, steps.first()), steps.drop_first())
    }
}

/// The events that `steps` emit, in the order of the emits.
pub open spec fn emitted(steps: Seq<Step>) -> Seq<Msg>
    decreases steps.len(),
{
    if steps.len() == 0 {
        Seq::empty()
    } else {
        match steps.first() {
            Step::Emit(event) => seq![event] + emitted(steps.drop_first()),
            Step::Poll(_) => emitted(steps.drop_first()),
        }
    }
}

/// What each poll among `steps` hands over when the run starts in `state`,
/// in the order of the polls.
pub open spec fn outcomes(state: StreamState, steps: Seq<Step>) -> Seq<Readiness<Msg>>
    decreases steps.len(),
{
    if steps.len() == 0 {
        Seq::empty()
    } else {
        let rest = outcomes(apply(state, steps.first()), steps.drop_first());
        match steps.first() {
            Step::Emit(_) => rest,
            Step::Poll(_) => seq![state.next()] + rest,
        }
    }
}

/// The events that the successful polls among `steps` deliver when the run
/// starts in `state`, in the order of delivery.
pub open spec fn delivered(state: StreamState, steps: Seq<Step>) -> Seq<Msg>
    decreases steps.len(),
{
    if steps.len() == 0 {
        Seq::empty()
    } else {
        let rest = delivered(apply(state, steps.first()), steps.drop_first());
        match (steps.first(), state.next()) {
            (Step::Poll(_), Readiness::Ready(event)) => seq![event] + rest,
            _ => rest,
        }
    }
}

/// The steps that emit each of `events` in turn.
pub open spec fn emits(events: Seq<Msg>) -> Seq<Step> {
    Seq::new(events.len(), |i: int| Step::Emit(events[i]))
}

/// The steps that poll once for each of `handles` in turn.
pub open spec fn polls(handles: Seq<Task>) -> Seq<Step> {
    Seq::new(handles.len(), |i: int| Step::Poll(handles[i]))
}

/// The steps of producer and consumer taking turns, one round for each of
/// `events`: a poll that finds nothing, the emit, and the poll that follows.
pub open spec fn alternating(events: Seq<Msg>, parks: Seq<Task>, pulls: Seq<Task>) -> Seq<Step>
    recommends
        parks.len() == events.len(),
        pulls.len() == events.len(),
    decreases events.len(),
{
    if events.len() == 0 {
        Seq::empty()
    } else {
        seq![Step::Poll(parks.first()), Step::Emit(events.first()), Step::Poll(pulls.first())]
            + alternating(events.drop_first(), parks.drop_first(), pulls.drop_first())
    }
}

/// A run of two parts is the second part run from where the first ended.
pub proof fn lemma_run_concat(state: StreamState, first: Seq<Step>, second: Seq<Step>)
    ensures
        run(state, first + second) == run(run(state, first), second),
        outcomes(state, first + second) == outcomes(state, first) + outcomes(
            run(state, first),
            second,
        ),
        delivered(state, first + second) == delivered(state, first) + delivered(
            run(state, first),
            second,
        ),
    decreases first.len(),
{
    if first.len() == 0 {
        assert(first + second =~= second);
        assert(outcomes(state, first) + outcomes(run(state, first), second) =~= outcomes(
            state,
            second,
        ));
        assert(delivered(state, first) + delivered(run(state, first), second) =~= delivered(
            state,
            second,
        ));
    } else {
        let whole = first + second;
        assert(whole.first() == first.first());
        assert(whole.drop_first() =~= first.drop_first() + second);
        let after = apply(state, first.first());
        lemma_run_concat(after, first.drop_first(), second);
        assert(outcomes(state, whole) =~= outcomes(state, first) + outcomes(
            run(state, first),
            second,
        ));
        assert(delivered(state, whole) =~= delivered(state, first) + delivered(
            run(state, first),
            second,
        ));
    }
}

/// Nothing is lost and nothing is delivered twice: in every run, the events
/// that were pending at its start followed by those emitted during it are,
/// one for one and in order, the events delivered during it followed by
/// those still pending at its end.
pub proof fn lemma_every_event_once(state: StreamState, steps: Seq<Step>)
    ensures
        state.pending + emitted(steps) == delivered(state, steps) + run(state, steps).pending,
    decreases steps.len(),
{
    if steps.len() == 0 {
        assert(state.pending + emitted(steps) =~= delivered(state, steps) + run(
            state,
            steps,
        ).pending);
    } else {
        let after = apply(state, steps.first());
        let rest = steps.drop_first();
        lemma_every_event_once(after, rest);
        let kept = delivered(after, rest) + run(after, rest).pending;
        match steps.first() {
            Step::Emit(event) => {
                assert(state.pending + (seq![event] + emitted(rest)) =~= after.pending + emitted(
                    rest,
                ));
            },
            Step::Poll(_) => {
                if state.pending.len() > 0 {
                    let head = seq![state.pending.first()];
                    assert(state.pending =~= head + after.pending);
                    assert((head + after.pending) + emitted(rest) =~= head + (after.pending
                        + emitted(rest)));
                    assert(head + kept =~= (head + delivered(after, rest)) + run(
                        after,
                        rest,
                    ).pending);
                }
            },
        }
    }
}

/// Emits alone deliver nothing and queue every event behind what was
/// pending; the park slot stays as it was.
pub proof fn lemma_emits_queue_up(state: StreamState, events: Seq<Msg>)
    ensures
        run(state, emits(events)).pending == state.pending + events,
        run(state, emits(events)).parked == state.parked,
        outcomes(state, emits(events)) == Seq::<Readiness<Msg>>::empty(),
    decreases events.len(),
{
    let steps = emits(events);
    if events.len() == 0 {
        assert(state.pending + events =~= state.pending);
    } else {
        let after = state.emit(events.first());
        assert(steps.first() == Step::Emit(events.first()));
        assert(steps.drop_first() =~= emits(events.drop_first()));
        lemma_emits_queue_up(after, events.drop_first());
        assert(after.pending + events.drop_first() =~= state.pending + events);
    }
}

/// Polls on a stream with as many pending events as there are polls hand
/// those events over, oldest first, and leave nothing pending and nobody
/// parked.
pub proof fn lemma_polls_drain(state: StreamState, handles: Seq<Task>)
    requires
        handles.len() == state.pending.len(),
    ensures
        outcomes(state, polls(handles)) == state.pending.map_values(
            |event: Msg| Readiness::Ready(event),
        ),
        run(state, polls(handles)).pending == Seq::<Msg>::empty(),
        handles.len() > 0 ==> run(state, polls(handles)).parked is None,
        handles.len() == 0 ==> run(state, polls(handles)).parked == state.parked,
    decreases handles.len(),
{
    let steps = polls(handles);
    let ready = state.pending.map_values(|event: Msg| Readiness::Ready(event));
    if handles.len() == 0 {
        assert(outcomes(state, steps) =~= ready);
        assert(state.pending =~= Seq::<Msg>::empty());
    } else {
        let after = state.poll(handles.first());
        assert(steps.first() == Step::Poll(handles.first()));
        assert(steps.drop_first() =~= polls(handles.drop_first()));
        lemma_polls_drain(after, handles.drop_first());
        let rest = after.pending.map_values(|event: Msg| Readiness::Ready(event));
        assert(seq![state.next()] + rest =~= ready);
    }
}

/// A burst of emits on a fresh stream, followed by one poll more than there
/// were emits: every poll but the last hands over one event, in the order of
/// the emits, and the last finds nothing and parks its caller.
pub proof fn lemma_burst_then_drain(events: Seq<Msg>, handles: Seq<Task>, last: Task)
    requires
        handles.len() == events.len(),
    ensures
        outcomes(StreamState::fresh(), emits(events) + polls(handles.push(last)))
            == events.map_values(|event: Msg| Readiness::Ready(event)).push(Readiness::NotReady),
        run(StreamState::fresh(), emits(events) + polls(handles.push(last))) == (StreamState {
            pending: Seq::empty(),
            parked: Some(last),
        }),
{
    let fresh = StreamState::fresh();
    let filled = run(fresh, emits(events));
    lemma_emits_queue_up(fresh, events);
    assert(filled.pending =~= events);
    let drained = run(filled, polls(handles));
    lemma_polls_drain(filled, handles);
    let tail = seq![Step::Poll(last)];
    assert(polls(handles.push(last)) =~= polls(handles) + tail);
    assert(tail.drop_first() =~= Seq::<Step>::empty());
    assert(run(drained, tail) == run(drained.poll(last), tail.drop_first()));
    assert(outcomes(drained, tail) =~= seq![Readiness::<Msg>::NotReady]) by {
        assert(outcomes(drained.poll(last), tail.drop_first()) =~= Seq::<Readiness<Msg>>::empty());
    }
    lemma_run_concat(filled, polls(handles), tail);
    lemma_run_concat(fresh, emits(events), polls(handles.push(last)));
    assert(outcomes(fresh, emits(events) + polls(handles.push(last))) =~= events.map_values(
        |event: Msg| Readiness::Ready(event),
    ).push(Readiness::NotReady));
}

/// Producer and consumer taking turns on one thread: a poll that finds
/// nothing parks its caller; the emit that follows finds that caller parked,
/// so the producer has it to signal, and queues the event; the next poll
/// hands that very event over and leaves the stream as empty as it was, with nobody parked.
pub proof fn lemma_alternation_delivers(state: StreamState, first: Task, event: Msg, second: Task)
    requires
        state.pending.len() == 0,
    ensures
        state.next() == Readiness::<Msg>::NotReady,
        state.poll(first).parked == Some(first),
        state.poll(first).wakes(),
        state.poll(first).emit(event).next() == Readiness::Ready(event),
        state.poll(first).emit(event).poll(second) == (StreamState {
            pending: Seq::empty(),
            parked: None,
        }),
{
    let parked = state.poll(first);
    let filled = parked.emit(event);
    assert(filled.pending =~= seq![event]);
    assert(filled.pending.drop_first() =~= Seq::<Msg>::empty());
}

/// Taking turns for any number of rounds: every emit finds the consumer
/// parked, every emitted event is handed over by the poll that follows its
/// emit, in the order of the emits, and the stream ends as empty as it
/// began, with nobody parked.
pub proof fn lemma_alternation_delivers_all(
    state: StreamState,
    events: Seq<Msg>,
    parks: Seq<Task>,
    pulls: Seq<Task>,
)
    requires
        state.pending.len() == 0,
        parks.len() == events.len(),
        pulls.len() == events.len(),
    ensures
        delivered(state, alternating(events, parks, pulls)) == events,
        run(state, alternating(events, parks, pulls)).pending == Seq::<Msg>::empty(),
        events.len() > 0 ==> run(state, alternating(events, parks, pulls)).parked is None,
    decreases events.len(),
{
    if events.len() == 0 {
        assert(state.pending =~= Seq::<Msg>::empty());
        assert(delivered(state, alternating(events, parks, pulls)) =~= events);
    } else {
        let round = seq![
            Step::Poll(parks.first()),
            Step::Emit(events.first()),
            Step::Poll(pulls.first()),
        ];
        let more = alternating(events.drop_first(), parks.drop_first(), pulls.drop_first());
        lemma_alternation_delivers(state, parks.first(), events.first(), pulls.first());
        let parked = state.poll(parks.first());
        let filled = parked.emit(events.first());
        let after = filled.poll(pulls.first());
        let rest1 = round.drop_first();
        let rest2 = rest1.drop_first();
        let rest3 = rest2.drop_first();
        assert(rest3.len() == 0);
        assert(run(after, rest3) == after);
        assert(run(filled, rest2) == after);
        assert(run(parked, rest1) == after);
        assert(run(state, round) == after);
        assert(delivered(after, rest3) =~= Seq::<Msg>::empty());
        assert(delivered(filled, rest2) =~= seq![events.first()]);
        assert(delivered(parked, rest1) =~= seq![events.first()]);
        assert(delivered(state, round) =~= seq![events.first()]);
        lemma_run_concat(state, round, more);
        lemma_alternation_delivers_all(
            after,
            events.drop_first(),
            parks.drop_first(),
            pulls.drop_first(),
        );
        assert(seq![events.first()] + events.drop_first() =~= events);
    }
}

/// One state behind every handle: an event emitted onto an empty stream goes
/// to the first poll that follows, whoever makes it, and to no later poll.
pub proof fn lemma_one_queue_one_delivery(
    state: StreamState,
    event: Msg,
    first: Task,
    second: Task,
)
    requires
        state.pending.len() == 0,
    ensures
        state.emit(event).next() == Readiness::Ready(event),
        state.emit(event).poll(first).next() == Readiness::<Msg>::NotReady,
        outcomes(state, seq![Step::Emit(event), Step::Poll(first), Step::Poll(second)])
            == seq![Readiness::Ready(event), Readiness::NotReady],
{
    let steps = seq![Step::Emit(event), Step::Poll(first), Step::Poll(second)];
    let filled = state.emit(event);
    assert(filled.pending =~= seq![event]);
    assert(filled.pending.drop_first() =~= Seq::<Msg>::empty());
    let taken = filled.poll(first);
    let rest1 = steps.drop_first();
    let rest2 = rest1.drop_first();
    let rest3 = rest2.drop_first();
    assert(rest3.len() == 0);
    assert(outcomes(taken.poll(second), rest3) =~= Seq::<Readiness<Msg>>::empty());
    assert(outcomes(taken, rest2) =~= seq![Readiness::<Msg>::NotReady]);
    assert(outcomes(filled, rest1) =~= seq![Readiness::Ready(event), Readiness::NotReady]);
    assert(outcomes(state, steps) =~= seq![Readiness::Ready(event), Readiness::NotReady]);
}

} // verus!
