//! What the two transitions add up to. The lock serialises every poll and
//! every delivery, so a run of the library is a sequence of transitions of one
//! `State`, and each law below speaks of such a sequence.

use crate::state::{ProtocolViolation, State};
use std::task::{Poll, Waker};
use vstd::prelude::*;

verus! {

/// A value delivered to a fresh condition is accepted, the poll that follows
/// returns exactly that value, and the poll after that one finds nothing: the
/// value is observed once.
pub proof fn delivered_value_is_observed_once<T>(value: T, first: Waker, second: Waker)
    ensures
        State::<T>::empty().ready_result() == Ok::<(), ProtocolViolation>(()),
        State::<T>::empty().after_ready(value).poll_result() == Poll::Ready(value),
        State::<T>::empty().after_ready(value).after_poll(first).poll_result()
            == Poll::<T>::Pending,
        State::<T>::empty().after_ready(value).after_poll(first).after_poll(second).value
            == None::<T>,
{
}

/// When the delivery comes before the first poll, it wakes nobody, and that
/// poll returns the value at once: it registers no handle, so the task is not
/// suspended.
pub proof fn delivery_before_poll<T>(value: T, handle: Waker)
    ensures
        State::<T>::empty().woken() == None::<Waker>,
        State::<T>::empty().after_ready(value).poll_result() == Poll::Ready(value),
        State::<T>::empty().after_ready(value).after_poll(handle) == State::<T>::empty(),
{
}

/// When the first poll comes before the delivery, it reports `Pending` and
/// registers its handle; the delivery then wakes that handle, and the next
/// poll returns the value.
pub proof fn poll_before_delivery<T>(value: T, handle: Waker, next: Waker)
    ensures
        State::<T>::empty().poll_result() == Poll::<T>::Pending,
        State::<T>::empty().after_poll(handle).handle == Some(handle),
        State::<T>::empty().after_poll(handle).ready_result() == Ok::<(), ProtocolViolation>(()),
        State::<T>::empty().after_poll(handle).woken() == Some(handle),
        State::<T>::empty().after_poll(handle).after_ready(value).poll_result() == Poll::Ready(
            value,
        ),
        State::<T>::empty().after_poll(handle).after_ready(value).after_poll(next)
            == State::<T>::empty(),
{
}

/// Whatever the state, a delivery that directly follows another delivery is
/// refused, wakes nobody, and leaves the condition as the first one left it.
pub proof fn second_delivery_is_refused<T>(state: State<T>, first: T, second: T)
    ensures
        state.after_ready(first).ready_result() == Err::<(), ProtocolViolation>(ProtocolViolation),
        state.after_ready(first).woken() == None::<Waker>,
        state.after_ready(first).after_ready(second) == state.after_ready(first),
        state.ready_result() == Ok::<(), ProtocolViolation>(()) ==> state.after_ready(
            first,
        ).value == Some(first),
{
}

/// A value that is in place stays there, whatever is delivered after it,
/// until a poll takes it; that poll returns it, and with it the slot is empty
/// again.
pub proof fn value_leaves_only_by_poll<T>(state: State<T>, value: T, other: T, handle: Waker)
    requires
        state.value == Some(value),
    ensures
        state.after_ready(other).value == Some(value),
        state.poll_result() == Poll::Ready(value),
        state.after_poll(handle).value == None::<T>,
{
}

/// A fresh condition is settled, and every poll and every delivery leaves a
/// settled condition settled: no handle is ever registered beside a value, so
/// no task stays suspended on a condition that holds its value.
pub proof fn transitions_keep_settled<T>(state: State<T>, value: T, handle: Waker)
    ensures
        State::<T>::empty().settled(),
        state.settled() ==> state.after_poll(handle).settled(),
        state.settled() ==> state.after_ready(value).settled(),
{
}

/// As long as nothing was delivered, every poll reports `Pending` and leaves
/// its own handle registered, whatever was registered before.
pub proof fn polls_before_delivery_leave_last_handle<T>(handles: Seq<Waker>)
    ensures
        State::<T>::empty().after_polls(handles).value == None::<T>,
        State::<T>::empty().after_polls(handles).poll_result() == Poll::<T>::Pending,
        State::<T>::empty().after_polls(handles).handle == if handles.len() == 0 {
            None
        } else {
            Some(handles.last())
        },
    decreases handles.len(),
{
    if handles.len() > 0 {
        polls_before_delivery_leave_last_handle::<T>(handles.drop_last());
    }
}

/// No wake is lost. However many polls the consumer has made before the value
/// is delivered, none or many, from whichever thread the delivery comes: the
/// delivery is accepted, it wakes the handle of the latest such poll if there
/// was one, and the consumer's next poll returns the value.
pub proof fn handoff_loses_no_wake<T>(handles: Seq<Waker>, value: T, next: Waker)
    ensures
        State::<T>::empty().after_polls(handles).ready_result() == Ok::<(), ProtocolViolation>(()),
        State::<T>::empty().after_polls(handles).woken() == if handles.len() == 0 {
            None
        } else {
            Some(handles.last())
        },
        State::<T>::empty().after_polls(handles).after_ready(value).poll_result() == Poll::Ready(
            value,
        ),
        State::<T>::empty().after_polls(handles).after_ready(value).after_poll(next)
            == State::<T>::empty(),
{
    polls_before_delivery_leave_last_handle::<T>(handles);
}

} // verus!
