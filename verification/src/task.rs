//! What the library takes on trust about `std::task`.

use std::ops::Deref;
use std::pin::Pin;
use std::task::{Context, Poll, Waker};
use vstd::prelude::*;

verus! {

/// `std::task::Waker`, carried as an opaque value: the handle by which a
/// driver asks to have a suspended task polled again.
#[verifier::external_type_specification]
#[verifier::external_body]
pub struct ExWaker(Waker);

/// `std::task::Poll`, with its two variants `Ready(T)` and `Pending` as std
/// defines them.
#[verifier::external_type_specification]
#[verifier::reject_recursive_types(T)]
pub struct ExPoll<T>(Poll<T>);

/// `std::task::Context`: what a driver hands to a poll. The library reads
/// only the waker in it.
#[verifier::external_type_specification]
#[verifier::external_body]
pub struct ExContext<'a>(Context<'a>);

/// `std::pin::Pin`, carried as an opaque value.
#[verifier::external_type_specification]
#[verifier::external_body]
#[verifier::reject_recursive_types(Ptr)]
pub struct ExPin<Ptr>(Pin<Ptr>);

/// `Context::waker`: the handle of the task that is being polled.
pub assume_specification<'a>[ Context::<'a>::waker ](cx: &Context<'a>) -> (w: &'a Waker);

/// `Waker::clone`: a handle of its own for the same task. Nothing is claimed
/// of the result.
pub assume_specification[ <Waker as Clone>::clone ](w: &Waker) -> (r: Waker);

/// `Pin::deref`: shared access to the pinned value. Nothing is claimed of the
/// result.
pub assume_specification<Ptr: Deref>[ <Pin<Ptr> as Deref>::deref ](p: &Pin<Ptr>) -> (r: &<Ptr as Deref>::Target);

/// Calls `Waker::wake_by_ref`. Nothing is claimed of its effect: what a wake
/// does is the business of the driver that made the handle.
#[verifier::external_body]
pub(crate) fn wake(handle: &Waker) {
    handle.wake_by_ref()
}

} // verus!
