//! The calls that leave the library: into the held future, and into `Pin`. Nothing is
//! proved of them and none promises anything. The module is private, so none of them can be
//! called from outside; they are `pub` within it so that the adapter's contracts can say
//! which call a result came from.

use crate::optional::OptionalFuture;
use core::future::Future;
use core::pin::Pin;
use core::task::Context;
use core::task::Poll;
use futures_core::future::FusedFuture;
use vstd::prelude::*;

verus! {

/// Pins a future in place with `Pin::new`, which is open to every future that is `Unpin`.
/// Nothing is claimed of the pin.
#[verifier::external_body]
pub fn pinned<Fut: Unpin>(fut: &mut Fut) -> (pin: Pin<&mut Fut>) {
    Pin::new(fut)
}

/// Calls `Future::poll` on `fut`. Nothing is claimed of the report, nor of the state in
/// which the future is left: both are the future's own business. So is what happens when
/// a future is polled again after it has reported `Ready`, which the trait leaves open.
#[verifier::external_body]
pub fn poll_held<Fut: Future>(fut: Pin<&mut Fut>, cx: &mut Context<'_>) -> (report: Poll<
    Fut::Output,
>) {
    fut.poll(cx)
}

/// Calls `FusedFuture::is_terminated` on `fut`. Nothing is claimed of the flag: the future
/// alone knows whether it may be polled again.
#[verifier::external_body]
pub fn held_is_terminated<Fut: FusedFuture>(fut: &Fut) -> (terminated: bool) {
    fut.is_terminated()
}

/// Unwraps a pinned adapter with `Pin::get_mut`, which is open to it since it is `Unpin`.
/// Nothing is claimed of the adapter that comes out.
#[verifier::external_body]
pub fn unpinned<Fut: Unpin>(pin: Pin<&mut OptionalFuture<Fut>>) -> (adapter: &mut OptionalFuture<
    Fut,
>) {
    Pin::get_mut(pin)
}

} // verus!
