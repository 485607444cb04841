//! The event stream: the queue, the park slot and the context that goes out
//! with every delivered event.

use crossbeam::sync::MsQueue;
use futures::task::Task;
use vstd::prelude::*;

use crate::msg::{Msg, Readiness};
use crate::park::ParkSlot;
use crate::queue::{queue_new, queue_push, queue_try_pop, queued};

verus! {

/// What a stream is, seen from outside: the events not yet delivered, oldest
/// first, and the handle of a parked consumer.
pub struct StreamState {
    pub pending: Seq<Msg>,
    pub parked: Option<Task>,
}

impl StreamState {
    /// A stream on which nothing has happened yet.
    pub open spec fn fresh() -> StreamState {
        StreamState { pending: Seq::empty(), parked: None }
    }

    /// Whether a consumer is parked, so that a producer who emits on this
    /// state has a task to signal.
    pub open spec fn wakes(self) -> bool {
        self.parked is Some
    }

    /// The state after `event` was emitted: it stands behind all that was
    /// pending, and the slot is as it was.
    pub open spec fn emit(self, event: Msg) -> StreamState {
        StreamState { pending: self.pending.push(event), parked: self.parked }
    }

    /// What a poll on this state hands over.
    pub open spec fn next(self) -> Readiness<Msg> {
        if self.pending.len() > 0 {
            Readiness::Ready(self.pending.first())
        } else {
            Readiness::NotReady
        }
    }

    /// The state after a poll made on behalf of `handle`: a pending event
    /// leaves and clears the slot; with none pending, `handle` is parked.
    pub open spec fn poll(self, handle: Task) -> StreamState {
        if self.pending.len() > 0 {
            StreamState { pending: self.pending.drop_first(), parked: None }
        } else {
            StreamState { pending: self.pending, parked: Some(handle) }
        }
    }
}

/// Events on their way from producers to the one consumer, together with the
/// context `W` that accompanies each of them.
pub struct EventStream<W: Clone> {
    events: MsQueue<Msg>,
    task: ParkSlot,
    widgets: W,
}

impl<W: Clone> View for EventStream<W> {
    type V = StreamState;

    closed spec fn view(&self) -> StreamState {
        StreamState { pending: queued(self.events), parked: self.task.parked() }
    }
}

impl<W: Clone> EventStream<W> {
    /// The context handed out with every event.
    pub closed spec fn context(&self) -> W {
        self.widgets
    }

    /// A stream with nothing pending and nobody parked.
    pub fn new(widgets: W) -> (stream: Self)
        ensures
            stream@ == StreamState::fresh(),
            stream.context() == widgets,
    {
        EventStream { events: queue_new(), task: ParkSlot::new(), widgets }
    }

    /// The handle of the parked consumer, if one is parked: the task that a
    /// producer signals before it emits. Signalling asks the task's executor
    /// to run it again and dequeues nothing.
    pub fn parked_handle(&self) -> (handle: Option<&Task>)
        ensures
            match handle {
                Some(task) => self@.parked == Some(*task),
                None => self@.parked is None,
            },
            (handle is Some) == self@.wakes(),
    {
        self.task.parked_handle()
    }

    /// Enqueues `event` behind all pending ones. Never fails and never
    /// waits. The slot keeps its handle: only a poll that dequeues something
    /// clears it. A producer first signals the task that `parked_handle`
    /// names, then calls this.
    pub fn emit(&mut self, event: Msg)
        ensures
            final(self)@ == old(self)@.emit(event),
            final(self).context() == old(self).context(),
    {
        queue_push(&mut self.events, event);
    }

    /// Takes the oldest pending event out of the queue, if there is one. The
    /// park slot is not touched.
    pub fn get_event(&mut self) -> (event: Option<Msg>)
        ensures
            event == old(self)@.next().as_option(),
            old(self)@.pending.len() > 0 ==> final(self)@.pending == old(self)@.pending.drop_first(),
            old(self)@.pending.len() == 0 ==> final(self)@.pending == old(self)@.pending,
            final(self)@.parked == old(self)@.parked,
            final(self).context() == old(self).context(),
    {
        queue_try_pop(&mut self.events)
    }

    /// One pull by the consumer whose handle is `current`.
    ///
    /// With an event pending, the oldest one leaves the queue and comes back
    /// with a clone of the context, and the slot is cleared. With none,
    /// `current` is parked in place of any earlier handle and the outcome is
    /// `NotReady`. The stream never ends: there is no third outcome.
    pub fn poll(&mut self, current: Task) -> (outcome: Readiness<(Msg, W)>)
        ensures
            final(self)@ == old(self)@.poll(current),
            final(self).context() == old(self).context(),
            match outcome {
                Readiness::Ready((event, widgets)) => old(self)@.next() == Readiness::Ready(event)
                    && cloned(old(self).context(), widgets),
                Readiness::NotReady => old(self)@.next() == Readiness::<Msg>::NotReady,
            },
    {
        match self.get_event() {
            Some(event) => {
                self.task.clear();
                Readiness::Ready((event, self.widgets.clone()))
            },
            None => {
                self.task.park(current);
                Readiness::NotReady
            },
        }
    }

    /// The context that goes out with every event.
    pub fn context_ref(&self) -> (widgets: &W)
        ensures
            *widgets == self.context(),
    {
        &self.widgets
    }
}

} // verus!
