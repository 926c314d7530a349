use crate::held::held_is_terminated;
use crate::held::pinned;
use crate::held::poll_held;
use crate::held::unpinned;
use crate::polling::poll_step;
use crate::polling::relay_poll;
use crate::polling::relay_termination;
use crate::polling::relayed_poll;
use core::future::Future;
use core::ops::Deref;
use core::ops::DerefMut;
use core::pin::Pin;
use core::task::Context;
use core::task::Poll;
use futures_core::future::FusedFuture;
use vstd::prelude::*;
use vstd::std_specs::convert::FromSpec;

verus! {

/// A future wrapped in an option. While the option is `None` the future can never resolve,
/// which makes it a branch of a multi-way wait that is only sometimes active.
#[derive(Debug)]
#[must_use]
pub struct OptionalFuture<Fut> {
    inner: Option<Fut>,
}

/// A boxed [`OptionalFuture`].
pub type BoxOptionalFuture<T> = OptionalFuture<Pin<Box<dyn Future<Output = T> + Send + 'static>>>;

impl<Fut> View for OptionalFuture<Fut> {
    type V = Option<Fut>;

    /// The slot: `None` while the adapter is empty, `Some(fut)` while it holds `fut`.
    closed spec fn view(&self) -> Option<Fut> {
        self.inner
    }
}

/// Creates an optional future from an option.
pub fn optional_future<Fut>(option: Option<Fut>) -> (r: OptionalFuture<Fut>) where Fut: Future
    ensures
        r@ == option,
        r == OptionalFuture::from_spec(option),
{
    OptionalFuture { inner: option }
}

impl<Fut> Default for OptionalFuture<Fut> {
    /// The empty adapter.
    fn default() -> (r: Self)
        ensures
            r@ == None::<Fut>,
            r == Self::from_spec(None),
    {
        Self { inner: None }
    }
}

impl<Fut> From<Option<Fut>> for OptionalFuture<Fut> {
    /// The adapter whose slot is `value`.
    fn from(value: Option<Fut>) -> (r: Self)
        ensures
            r@ == value,
    {
        Self { inner: value }
    }
}

impl<Fut> vstd::std_specs::convert::FromSpecImpl<Option<Fut>> for OptionalFuture<Fut> {
    open spec fn obeys_from_spec() -> bool {
        true
    }

    closed spec fn from_spec(value: Option<Fut>) -> Self {
        OptionalFuture { inner: value }
    }
}

impl<Fut> OptionalFuture<Fut> {
    /// What `replace(value)` hands back, and the slot it leaves.
    pub open spec fn spec_replace(self, value: Fut) -> (Option<Fut>, Option<Fut>) {
        (self@, Some(value))
    }

    /// What `take()` hands back, and the slot it leaves.
    pub open spec fn spec_take(self) -> (Option<Fut>, Option<Fut>) {
        (self@, None)
    }

    /// An adapter is its slot and nothing else: the one made from `value` has `value` as its
    /// slot, and every adapter is the one made from its slot.
    pub proof fn lemma_from_spec(value: Option<Fut>)
        ensures
            Self::from_spec(value)@ == value,
            forall|adapter: Self| adapter@ == value ==> adapter == Self::from_spec(value),
    {
    }

    /// Puts `value` into the slot and hands back what was held before, if anything.
    /// The previous future is neither polled nor dropped: its fate is the caller's.
    pub fn replace(&mut self, value: Fut) -> (previous: Option<Fut>)
        ensures
            (previous, final(self)@) == old(self).spec_replace(value),
    {
        let mut slot = Some(value);
        core::mem::swap(&mut self.inner, &mut slot);
        slot
    }

    /// Takes the held future out of the slot, leaving the adapter empty.
    pub fn take(&mut self) -> (held: Option<Fut>)
        ensures
            (held, final(self)@) == old(self).spec_take(),
    {
        self.inner.take()
    }

    /// Returns `true` if the slot is empty.
    pub fn is_none(&self) -> (r: bool)
        ensures
            r == (self@ is None),
    {
        self.inner.is_none()
    }

    /// Returns `true` if the slot holds a future.
    pub fn is_some(&self) -> (r: bool)
        ensures
            r == (self@ is Some),
    {
        self.inner.is_some()
    }

    /// Borrows the held future, if any.
    pub fn as_ref(&self) -> (r: Option<&Fut>)
        ensures
            r is Some == self@ is Some,
            r is Some ==> *r->0 == self@->0,
    {
        self.inner.as_ref()
    }
}

impl<Fut> Clone for OptionalFuture<Fut> where Fut: Clone {
    /// Duplicates the slot: an empty adapter gives an empty one, a held future is cloned
    /// into an adapter of its own.
    fn clone(&self) -> (r: Self)
        ensures
            self@ is None ==> r@ is None,
            self@ is Some ==> r@ is Some && cloned::<Fut>(self@->0, r@->0),
    {
        Self { inner: self.inner.clone() }
    }
}

impl<Fut> Deref for OptionalFuture<Fut> {
    type Target = Option<Fut>;

    /// Lends the slot out for reading.
    fn deref(&self) -> (slot: &Option<Fut>)
        ensures
            *slot == self@,
    {
        &self.inner
    }
}

impl<Fut> DerefMut for OptionalFuture<Fut> {
    /// Lends the slot out for writing: what the borrower leaves in it is the slot afterwards.
    fn deref_mut(&mut self) -> (slot: &mut Option<Fut>)
        ensures
            *slot == old(self)@,
            final(self)@ == *final(slot),
    {
        &mut self.inner
    }
}

impl<Fut: Future + Unpin> OptionalFuture<Fut> {
    /// Polls the adapter. An empty adapter reports `Pending` without doing any work and
    /// without registering a wake-up. Otherwise the held future is polled, once, and its
    /// report is handed on as it is. A poll never fills or empties the slot.
    ///
    /// On a filled slot the third clause says which call the result came from: the held
    /// future was pinned where it lies, `Future::poll` was called on that pin with the
    /// caller's context, and `r` is what the call returned; the slot holds the future as the
    /// call left it. The last clause says all of it through [`poll_step`], for whatever the
    /// poll of the held future did.
    pub fn poll_unpin(&mut self, cx: &mut Context<'_>) -> (r: Poll<Fut::Output>)
        ensures
            old(self)@ is None ==> r is Pending && final(self)@ is None && *final(cx) == *old(cx),
            old(self)@ is Some ==> final(self)@ is Some,
            old(self)@ is Some ==> exists|held: &mut Fut, pin: Pin<&mut Fut>, cx_in: &mut Context<'_>|
                {
                    &&& *held == old(self)@->0
                    &&& *final(held) == final(self)@->0
                    &&& call_ensures(pinned::<Fut>, (held,), pin)
                    &&& *cx_in == *old(cx)
                    &&& *final(cx_in) == *final(cx)
                    &&& call_ensures(poll_held::<Fut>, (pin, cx_in), r)
                },
            exists|polled: (Fut, Poll<Fut::Output>)|
                (final(self)@, r) == #[trigger] poll_step(old(self)@, polled),
    {
        let held = match &mut self.inner {
            Some(fut) => Some(poll_held(pinned(fut), cx)),
            None => None,
        };
        proof {
            let polled = if held is Some {
                (self@->0, held->0)
            } else {
                arbitrary()
            };
            assert((self@, relayed_poll(held)) == poll_step(old(self)@, polled));
        }
        relay_poll(held)
    }
}

impl<Fut: Future + Unpin> Future for OptionalFuture<Fut> {
    type Output = Fut::Output;

    /// Polls the adapter as [`OptionalFuture::poll_unpin`] does: `r` is what `poll_unpin`
    /// returned for the adapter that `Pin::get_mut` found behind the pin, called with the
    /// caller's context. The pin itself is opaque, so the slot cannot be spoken of here; what
    /// holds of it is what `poll_unpin` ensures of that adapter.
    fn poll(self: Pin<&mut Self>, cx: &mut Context<'_>) -> (r: Poll<Fut::Output>)
        ensures
            exists|adapter: &mut OptionalFuture<Fut>, cx_in: &mut Context<'_>|
                {
                    &&& call_ensures(unpinned::<Fut>, (self,), adapter)
                    &&& *cx_in == *old(cx)
                    &&& *final(cx_in) == *final(cx)
                    &&& call_ensures(OptionalFuture::<Fut>::poll_unpin, (adapter, cx_in), r)
                },
    {
        unpinned(self).poll_unpin(cx)
    }
}

impl<Fut: FusedFuture + Unpin> FusedFuture for OptionalFuture<Fut> {
    /// An empty adapter counts as terminated, since it can never become ready; otherwise
    /// the result is what `FusedFuture::is_terminated` returned for the held future.
    fn is_terminated(&self) -> (r: bool)
        ensures
            self@ is None ==> r,
            self@ is Some ==> call_ensures(held_is_terminated::<Fut>, (&self@->0,), r),
    {
        let held = match &self.inner {
            Some(fut) => Some(held_is_terminated(fut)),
            None => None,
        };
        relay_termination(held)
    }
}

} // verus!
