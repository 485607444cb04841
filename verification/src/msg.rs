//! The events that travel over the bridge and the outcome of one poll.

use vstd::prelude::*;

verus! {

/// One notification. An event carries nothing but its tag.
#[derive(Clone, Copy, Debug, PartialEq, Eq, Structural)]
pub enum Msg {
    /// The periodic timer fired.
    Clock,
    /// The counter goes down by one.
    Decrement,
    /// The counter goes up by one.
    Increment,
    /// The application was asked to close.
    Quit,
}

/// What one non-blocking poll found.
#[derive(Debug, PartialEq, Eq, Structural)]
pub enum Readiness<T> {
    /// A value was available and is handed over.
    Ready(T),
    /// Nothing was available; the caller tries again when it next runs.
    NotReady,
}

impl<T> Readiness<T> {
    /// The value of a ready outcome, or nothing.
    pub open spec fn as_option(self) -> Option<T> {
        match self {
            Readiness::Ready(v) => Some(v),
            Readiness::NotReady => None,
        }
    }
}

} // verus!
