//! The condition itself: the value that sits behind the lock.

use crate::state::{ProtocolViolation, State};
use crate::task::wake;
use std::task::{Poll, Waker};
use vstd::prelude::*;

verus! {

/// The cell that a `Signal` and its `Sender`s share.
pub struct Condition<Output> {
    waker: Option<Waker>,
    output: Option<Output>,
}

impl<Output> View for Condition<Output> {
    type V = State<Output>;

    closed spec fn view(&self) -> State<Output> {
        State { handle: self.waker, value: self.output }
    }
}

impl<Output> Condition<Output> {
    /// A condition on which nobody waits and to which nothing was delivered.
    pub fn new() -> (c: Self)
        ensures
            c@ == State::<Output>::empty(),
    {
        Condition { waker: None, output: None }
    }

    /// Takes the delivered value if there is one; otherwise registers `waker`
    /// as the handle to wake, in place of any earlier one, and reports
    /// `Pending`.
    pub fn poll(&mut self, waker: Waker) -> (r: Poll<Output>)
        ensures
            r == old(self)@.poll_result(),
            final(self)@ == old(self)@.after_poll(waker),
    {
        if let Some(output) = self.output.take() {
            return Poll::Ready(output);
        }
        self.waker = Some(waker);
        Poll::Pending
    }

    /// The part of a delivery that changes the condition: stores `output`
    /// unless a value is still in place, and hands out the handle that is now
    /// to be woken.
    pub fn store(&mut self, output: Output) -> (r: Result<Option<Waker>, ProtocolViolation>)
        ensures
            r == match old(self)@.ready_result() {
                Ok(_) => Ok(old(self)@.woken()),
                Err(e) => Err(e),
            },
            final(self)@ == old(self)@.after_ready(output),
    {
        if self.output.is_some() {
            return Err(ProtocolViolation);
        }
        self.output = Some(output);
        Ok(self.waker.take())
    }

    /// Delivers `output` and wakes the registered handle, if there is one. A
    /// delivery that finds an earlier value still in place is refused and
    /// changes nothing.
    pub fn ready(&mut self, output: Output) -> (r: Result<(), ProtocolViolation>)
        ensures
            r == old(self)@.ready_result(),
            final(self)@ == old(self)@.after_ready(output),
    {
        match self.store(output) {
            Ok(Some(handle)) => {
                wake(&handle);
                Ok(())
            },
            Ok(None) => Ok(()),
            Err(e) => Err(e),
        }
    }
}

} // verus!
