//! The two handles on one shared condition, and the function that makes them.

use crate::condition::Condition;
use crate::lock::{acquire, guarded, share};
use crate::state::ProtocolViolation;
use crate::task::wake;
use std::future::Future;
use std::pin::Pin;
use std::sync::{Arc, Mutex};
use std::task::{Context, Poll};
use vstd::prelude::*;

verus! {

/// The awaiting side: a future that completes with the delivered value.
#[verifier::reject_recursive_types(Output)]
pub struct Signal<Output> {
    cond: Arc<Mutex<Condition<Output>>>,
}

/// The delivering side. It can be cloned; all clones deliver to the same
/// condition, which accepts one value.
#[verifier::reject_recursive_types(Output)]
pub struct Sender<Output> {
    cond: Arc<Mutex<Condition<Output>>>,
}

impl<Output> Signal<Output> {
    /// Whether `sender` delivers to the condition that this signal awaits.
    pub closed spec fn paired_with(&self, sender: &Sender<Output>) -> bool {
        self.cond == sender.cond
    }
}

impl<Output> Future for Signal<Output> {
    type Output = Output;

    /// One poll of the shared condition, made with the lock held: see
    /// `Condition::poll`, which says what is returned for every state that may
    /// be found there. Which state is found depends on what the senders have
    /// done by then, so nothing is promised of the result here. The context
    /// is only read: the poll has no effect beyond the condition.
    fn poll(self: Pin<&mut Self>, cx: &mut Context<'_>) -> (r: Poll<Output>)
        ensures
            *final(cx) == *old(cx),
    {
        let waker = cx.waker().clone();
        let mut guard = acquire(&self.cond);
        guarded(&mut guard).poll(waker)
    }
}

impl<Output> Clone for Sender<Output> {
    fn clone(&self) -> (s: Self)
        ensures
            s == *self,
    {
        Sender { cond: share(&self.cond) }
    }
}

impl<Output> Sender<Output> {
    /// One delivery to the shared condition: see `Condition::store`, which is
    /// called with the lock held and says what is returned for every state
    /// that may be found there. Which state is found depends on what the other
    /// handles have done by then, so nothing is promised of the result here.
    /// The handle that `store` hands out is woken once the lock is free again,
    /// so a driver may poll from within the wake. The sender itself stays as
    /// it was.
    pub fn ready(&mut self, output: Output) -> (r: Result<(), ProtocolViolation>)
        ensures
            *final(self) == *old(self),
    {
        let stored = {
            let mut guard = acquire(&self.cond);
            let stored = guarded(&mut guard).store(output);
            stored
        };
        match stored {
            Ok(Some(handle)) => {
                wake(&handle);
                Ok(())
            },
            Ok(None) => Ok(()),
            Err(e) => Err(e),
        }
    }
}

/// Create new condition
pub fn cond<Output>() -> (pair: (Signal<Output>, Sender<Output>))
    ensures
        pair.0.paired_with(&pair.1),
{
    let cond = Arc::new(Mutex::new(Condition::new()));
    (Signal { cond: share(&cond) }, Sender { cond })
}

} // verus!
