//! The periodic timer as a second producer.
//!
//! The timer is a live sequence outside the library. Each time the reactor
//! looks at it, the caller says what it saw; a tick becomes a `Clock` event
//! on the stream, and a failure of the timer counts as no tick.

use vstd::prelude::*;

use crate::msg::Msg;
use crate::stream::{EventStream, StreamState};

verus! {

/// What one look at the timer found.
#[derive(Clone, Copy, Debug, PartialEq, Eq, Structural)]
pub enum TickPoll {
    /// The interval has elapsed.
    Tick,
    /// The interval has not elapsed yet.
    Quiet,
    /// The timer reported a failure.
    Failed,
}

impl TickPoll {
    /// The event that this observation puts on the stream, if any.
    pub open spec fn spec_event(self) -> Option<Msg> {
        match self {
            TickPoll::Tick => Some(Msg::Clock),
            TickPoll::Quiet => None,
            TickPoll::Failed => None,
        }
    }

    /// The event that this observation puts on the stream, if any.
    pub fn event(self) -> (event: Option<Msg>)
        ensures
            event == self.spec_event(),
    {
        match self {
            TickPoll::Tick => Some(Msg::Clock),
            TickPoll::Quiet => None,
            TickPoll::Failed => None,
        }
    }
}

/// The state of a stream after the timer was observed.
pub open spec fn after_tick(state: StreamState, observed: TickPoll) -> StreamState {
    match observed.spec_event() {
        Some(event) => state.emit(event),
        None => state,
    }
}

/// Feeds one observation of the timer into `stream`: a tick is emitted as a
/// `Clock` event, anything else leaves the stream untouched. Says whether an
/// event was emitted. As with any emit, signalling the parked consumer is
/// the caller's part.
pub fn feed_tick<W: Clone>(stream: &mut EventStream<W>, observed: TickPoll) -> (emitted: bool)
    ensures
        final(stream)@ == after_tick(old(stream)@, observed),
        final(stream).context() == old(stream).context(),
        emitted == (observed == TickPoll::Tick),
{
    match observed.event() {
        Some(event) => {
            stream.emit(event);
            true
        },
        None => false,
    }
}

} // verus!
