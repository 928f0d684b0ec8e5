//! A stream built over a sink, written through a sink adapter over its writer.
use vstd::prelude::*;
use crate::into_sink::{SinkPhase, SinkAction, close_step, deliver, lemma_in_order_delivery, resolved_step, writes_of};
use crate::into_underlying_sink::{DrivePhase, DriveAction, forward_all, lemma_forward_all, poll_step, sends_of};

verus! {

/// Chunks sent through a sink adapter, over the writer of a stream that is
/// backed by a sink which is always ready, reach that sink once each and in
/// the order sent, each write resolves with success, and closing the adapter
/// closes the sink in an orderly way after the last chunk.
pub proof fn lemma_round_trip<T, E>(chunks: Seq<T>, caps: Seq<bool>)
    requires
        caps.len() >= chunks.len(),
    ensures
        sends_of(forward_all::<T, E>(writes_of(deliver::<T, E>(chunks, caps).1)).1) == chunks,
        forward_all::<T, E>(writes_of(deliver::<T, E>(chunks, caps).1)).0 is Idle,
        close_step(deliver::<T, E>(chunks, caps).0).1 == SinkAction::<T>::Close,
        poll_step::<T, E>(DrivePhase::Closing, Some(Ok(()))) == (
        DrivePhase::<T, E>::Finished,
        DriveAction::<T, E>::Resolve,
        ),
        resolved_step(SinkPhase::<T, E>::Closed, Ok::<(), E>(())) == (
        SinkPhase::<T, E>::Closed,
        SinkAction::<T>::Done,
        ),
{
    lemma_in_order_delivery::<T, E>(chunks, caps);
    lemma_forward_all::<T, E>(writes_of(deliver::<T, E>(chunks, caps).1));
}

} // verus!
