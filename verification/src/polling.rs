use core::task::Poll;
use vstd::prelude::*;

verus! {

/// `core::task::Context`: the waker that a poll hands down. It is carried through to the
/// held future untouched, and nothing is read from it here.
#[verifier::external_type_specification]
#[verifier::external_body]
pub struct ExContext<'a>(core::task::Context<'a>);

/// `core::pin::Pin`: a pointer whose target stays where it is. It is carried through
/// untouched, and nothing is read from it here.
#[verifier::external_type_specification]
#[verifier::external_body]
#[verifier::reject_recursive_types(Ptr)]
pub struct ExPin<Ptr>(core::pin::Pin<Ptr>);

/// `core::task::Poll`, read as std defines it: the two variants `Ready(T)` and `Pending`.
#[verifier::external_type_specification]
pub struct ExPoll<T>(core::task::Poll<T>);

/// What a poll of the adapter reports, given what the held future reported when it was
/// polled. `None` stands for the empty slot, where nothing is polled.
pub open spec fn relayed_poll<T>(held: Option<Poll<T>>) -> Poll<T> {
    match held {
        Some(report) => report,
        None => Poll::Pending,
    }
}

/// Whether the adapter counts as terminated, given what the held future says of itself.
/// `None` stands for the empty slot: it can never become ready, so it counts as terminated.
pub open spec fn relayed_termination(held: Option<bool>) -> bool {
    match held {
        Some(terminated) => terminated,
        None => true,
    }
}

/// One poll of an adapter with slot `slot`: the slot that the poll leaves, and the report.
/// `polled` is what a poll of the held future does at this moment: the future as the poll
/// leaves it, and what it reports. An empty slot does not consult it.
pub open spec fn poll_step<Fut, T>(slot: Option<Fut>, polled: (Fut, Poll<T>)) -> (
    Option<Fut>,
    Poll<T>,
) {
    match slot {
        Some(_) => (Some(polled.0), relayed_poll(Some(polled.1))),
        None => (None, relayed_poll(None)),
    }
}

/// Turns the report of the held future into the report of the adapter: the report itself
/// where a future was polled, `Pending` where the slot was empty.
pub fn relay_poll<T>(held: Option<Poll<T>>) -> (r: Poll<T>)
    ensures
        r == relayed_poll(held),
{
    match held {
        Some(report) => report,
        None => Poll::Pending,
    }
}

/// Turns the termination flag of the held future into that of the adapter: the flag itself
/// where a future is held, `true` where the slot is empty.
pub fn relay_termination(held: Option<bool>) -> (r: bool)
    ensures
        r == relayed_termination(held),
{
    match held {
        Some(terminated) => terminated,
        None => true,
    }
}

} // verus!
