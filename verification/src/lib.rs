//! A polling bridge between callback-driven producers and a pull-based
//! consumer that runs under a cooperative scheduler.
//!
//! Producers signal the task named by [`EventStream::parked_handle`] and
//! call [`EventStream::emit`] from inside a dispatch step of an outside
//! dispatcher; the consumer calls [`EventStream::poll`] whenever the
//! scheduler runs it. A [`QuitFuture`] is the one-way flag that ends the
//! driving loop, and [`DriverLoop`] is that loop written as a step function.
//!
//! Every handle acts on one owned state: sharing a stream between several
//! producers is a matter of how the caller stores it, and the contracts here
//! hold of the state whichever handle reaches it.

pub mod driver;
pub mod flag;
pub mod msg;
pub mod park;
pub mod queue;
pub mod stream;
pub mod ticker;
pub mod trace;

pub use driver::{Action, DriverLoop, Phase, Report};
pub use flag::QuitFuture;
pub use msg::{Msg, Readiness};
pub use park::ParkSlot;
pub use stream::{EventStream, StreamState};
pub use ticker::{feed_tick, TickPoll};
