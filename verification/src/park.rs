//! The park slot: at most one handle to the consumer that wants to be told
//! when the queue stops being empty.

use futures::task::Task;
use vstd::prelude::*;

verus! {

/// futures' `task::Task`, a handle to a task of some executor, taken as an
/// opaque value that is stored, replaced and handed out. Nothing here
/// calls a method of it: signalling a task runs code of the executor that
/// made the handle, so that call is the caller's.
#[verifier::external_type_specification]
#[verifier::external_body]
pub struct ExTask(Task);

/// The place where a consumer that found the queue empty leaves its handle.
pub struct ParkSlot {
    handle: Option<Task>,
}

impl ParkSlot {
    /// The handle that is parked here, if any.
    pub closed spec fn parked(&self) -> Option<Task> {
        self.handle
    }

    /// An empty slot.
    pub fn new() -> (slot: ParkSlot)
        ensures
            slot.parked() is None,
    {
        ParkSlot { handle: None }
    }

    /// Whether a consumer is parked.
    pub fn is_parked(&self) -> (r: bool)
        ensures
            r == (self.parked() is Some),
    {
        self.handle.is_some()
    }

    /// Stores `handle`, replacing whichever handle was parked before.
    pub fn park(&mut self, handle: Task)
        ensures
            final(self).parked() == Some(handle),
    {
        self.handle = Some(handle);
    }

    /// Empties the slot.
    pub fn clear(&mut self)
        ensures
            final(self).parked() is None,
    {
        self.handle = None;
    }

    /// The handle of the parked consumer, if there is one: the task that a
    /// producer has to signal before it emits. The handle stays parked.
    pub fn parked_handle(&self) -> (handle: Option<&Task>)
        ensures
            match handle {
                Some(task) => self.parked() == Some(*task),
                None => self.parked() is None,
            },
    {
        match &self.handle {
            Some(task) => Some(task),
            None => None,
        }
    }
}

} // verus!
