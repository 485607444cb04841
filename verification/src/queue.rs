//! The unbounded FIFO of pending events: crossbeam's Michael-Scott queue,
//! reached through contracts that speak of the sequence it holds.
//!
//! The queue's own methods take `&self` so that producers on several threads
//! can push at once. The functions here take `&mut`: with exclusive access no
//! other push or pop can fall between the start and the end of a call, and
//! what the queue holds after the call is a function of what it held before.

use crossbeam::sync::MsQueue;
use vstd::prelude::*;

use crate::msg::Msg;

verus! {

/// crossbeam's `sync::MsQueue`, taken as an opaque value: what it holds is
/// known only through `queued` and the three functions below.
#[verifier::external_type_specification]
#[verifier::external_body]
#[verifier::reject_recursive_types(T)]
pub struct ExMsQueue<T>(MsQueue<T>);

/// The events that a queue holds, oldest first: those pushed and not yet
/// popped, in the order of their pushes.
pub uninterp spec fn queued(q: MsQueue<Msg>) -> Seq<Msg>;

/// `MsQueue::new`: a queue that holds nothing.
#[verifier::external_body]
pub(crate) fn queue_new() -> (q: MsQueue<Msg>)
    ensures
        queued(q) == Seq::<Msg>::empty(),
{
    MsQueue::new()
}

/// `MsQueue::push`: the event goes behind all that the queue held. The call
/// always succeeds and does not wait. No consumer is ever blocked in the
/// queue's waiting `pop`, which nothing here calls and which would hold a
/// shared borrow, so a push always adds a node and never hands its event to
/// a waiting thread.
#[verifier::external_body]
pub(crate) fn queue_push(q: &mut MsQueue<Msg>, event: Msg)
    ensures
        queued(*final(q)) == queued(*old(q)).push(event),
{
    q.push(event)
}

/// `MsQueue::try_pop`: the oldest event leaves the queue and is returned; an
/// empty queue gives `None` and stays as it was. The call does not wait.
#[verifier::external_body]
pub(crate) fn queue_try_pop(q: &mut MsQueue<Msg>) -> (r: Option<Msg>)
    ensures
        queued(*old(q)).len() == 0 ==> r is None && queued(*final(q)) == queued(*old(q)),
        queued(*old(q)).len() > 0 ==> r == Some(queued(*old(q)).first())
            && queued(*final(q)) == queued(*old(q)).drop_first(),
{
    q.try_pop()
}

} // verus!
