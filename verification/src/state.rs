//! The mathematical model of a condition: two optional slots, and the two
//! transitions that a poll and a delivery make on them.

use std::task::{Poll, Waker};
use vstd::prelude::*;

verus! {

/// The only error of the library: a value was delivered to a condition that
/// still held one.
#[derive(Clone, Copy, Debug, PartialEq, Eq, Structural)]
pub struct ProtocolViolation;

impl ProtocolViolation {
    /// What went wrong, in words.
    pub fn message(&self) -> (text: &'static str)
        ensures
            text@ == "call ready function twice"@,
    {
        "call ready function twice"
    }
}

/// What a condition holds at one moment.
pub struct State<T> {
    /// The handle of the task that is suspended on the condition, if any.
    pub handle: Option<Waker>,
    /// The value that was delivered and not yet taken, if any.
    pub value: Option<T>,
}

impl<T> State<T> {
    /// The state of a fresh condition: nobody waits, nothing was delivered.
    pub open spec fn empty() -> Self {
        State { handle: None, value: None }
    }

    /// Whether the two slots agree: a handle is registered only while no value
    /// is in place.
    pub open spec fn settled(self) -> bool {
        self.value is Some ==> self.handle is None
    }

    /// What a poll returns in this state: the value if there is one.
    pub open spec fn poll_result(self) -> Poll<T> {
        match self.value {
            Some(v) => Poll::Ready(v),
            None => Poll::Pending,
        }
    }

    /// The state after a poll with `handle`: a value that is present is taken,
    /// otherwise `handle` replaces whatever handle was registered.
    pub open spec fn after_poll(self, handle: Waker) -> Self {
        match self.value {
            Some(_) => State { handle: self.handle, value: None },
            None => State { handle: Some(handle), value: None },
        }
    }

    /// The state after one poll with each handle of `handles`, in their order.
    pub open spec fn after_polls(self, handles: Seq<Waker>) -> Self
        decreases handles.len(),
    {
        if handles.len() == 0 {
            self
        } else {
            self.after_polls(handles.drop_last()).after_poll(handles.last())
        }
    }

    /// What a delivery returns in this state: it is refused while an earlier
    /// value is still in place.
    pub open spec fn ready_result(self) -> Result<(), ProtocolViolation> {
        match self.value {
            Some(_) => Err(ProtocolViolation),
            None => Ok(()),
        }
    }

    /// The handle that a delivery in this state wakes: the registered one, when
    /// the delivery is accepted.
    pub open spec fn woken(self) -> Option<Waker> {
        match self.value {
            Some(_) => None,
            None => self.handle,
        }
    }

    /// The state after a delivery of `value`: an accepted delivery stores the
    /// value and uses up the registered handle, a refused one changes nothing.
    pub open spec fn after_ready(self, value: T) -> Self {
        match self.value {
            Some(_) => self,
            None => State { handle: None, value: Some(value) },
        }
    }
}

} // verus!
