use crate::optional::OptionalFuture;
use crate::polling::poll_step;
use crate::polling::relayed_termination;
use core::task::Poll;
use vstd::prelude::*;
use vstd::std_specs::convert::FromSpec;

verus! {

/// A run of polls of an adapter that starts with slot `slot`: the slot after the last poll,
/// and the reports in order. `polled[i]` is what the `i`-th poll of the held future does.
pub open spec fn poll_run<Fut, T>(slot: Option<Fut>, polled: Seq<(Fut, Poll<T>)>) -> (
    Option<Fut>,
    Seq<Poll<T>>,
)
    decreases polled.len(),
{
    if polled.len() == 0 {
        (slot, Seq::empty())
    } else {
        let before = poll_run(slot, polled.drop_last());
        let step = poll_step(before.0, polled.last());
        (step.0, before.1.push(step.1))
    }
}

/// An empty adapter never becomes ready: however often it is polled, it stays empty and
/// every report is `Pending`, whatever a future would have done; and it counts as
/// terminated all the while.
pub proof fn lemma_empty_never_ready<Fut, T>(polled: Seq<(Fut, Poll<T>)>)
    ensures
        poll_run(None, polled).0 == None::<Fut>,
        poll_run(None, polled).1 == Seq::new(polled.len(), |i: int| Poll::<T>::Pending),
        relayed_termination(None),
    decreases polled.len(),
{
    if polled.len() > 0 {
        lemma_empty_never_ready(polled.drop_last());
    }
}

/// An adapter that holds a future is transparent: over any run of polls it reports, step by
/// step, exactly what the held future reports, readiness and output alike, and it goes on
/// holding the future as the last poll left it. Its termination flag is the future's own.
pub proof fn lemma_holding_is_transparent<Fut, T>(fut: Fut, polled: Seq<(Fut, Poll<T>)>)
    ensures
        poll_run(Some(fut), polled).0 == Some(
            if polled.len() == 0 {
                fut
            } else {
                polled.last().0
            },
        ),
        poll_run(Some(fut), polled).1 == polled.map_values(|p: (Fut, Poll<T>)| p.1),
        forall|terminated: bool| relayed_termination(Some(terminated)) == terminated,
    decreases polled.len(),
{
    if polled.len() > 0 {
        lemma_holding_is_transparent(fut, polled.drop_last());
    }
}

/// Round trip: the first `take` on an adapter made from `Some(fut)` hands `fut` back and
/// leaves the adapter empty.
pub proof fn lemma_take_after_from<Fut>(fut: Fut)
    ensures
        OptionalFuture::<Fut>::from_spec(Some(fut)).spec_take() == (Some(fut), None::<Fut>),
{
    OptionalFuture::<Fut>::lemma_from_spec(Some(fut));
}

/// `replace` loses nothing: it hands back what the slot held, be that nothing or a future,
/// the adapter then holds the new future, and a `take` right after hands that one back.
pub proof fn lemma_replace_loses_nothing<Fut>(adapter: OptionalFuture<Fut>, fut: Fut)
    ensures
        adapter@ is None ==> adapter.spec_replace(fut) == (None::<Fut>, Some(fut)),
        forall|held: Fut|
            adapter@ == Some(held) ==> adapter.spec_replace(fut) == (Some(held), Some(fut)),
        OptionalFuture::<Fut>::from_spec(adapter.spec_replace(fut).1).spec_take() == (
            Some(fut),
            None::<Fut>,
        ),
{
    OptionalFuture::<Fut>::lemma_from_spec(Some(fut));
}

/// `take` empties the slot once and for all: it hands back what the slot held, and a `take`
/// on an empty adapter, such as the one it leaves, hands nothing back and changes nothing.
pub proof fn lemma_take_is_idempotent<Fut>(adapter: OptionalFuture<Fut>)
    ensures
        forall|held: Fut| adapter@ == Some(held) ==> adapter.spec_take() == (Some(held), None::<Fut>),
        adapter@ is None ==> adapter.spec_take() == (None::<Fut>, adapter@),
        OptionalFuture::<Fut>::from_spec(adapter.spec_take().1).spec_take() == (
            None::<Fut>,
            None::<Fut>,
        ),
{
    OptionalFuture::<Fut>::lemma_from_spec(None);
}

} // verus!
