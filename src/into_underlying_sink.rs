//! Drives a poll-based sink from a stream's write, close and abort callbacks.
//!
//! Each callback is a short run of steps: the adapter names the next poll of
//! the wrapped sink, the embedding program performs it and reports what the
//! poll returned, until the adapter resolves or rejects the callback.
use vstd::prelude::*;

verus! {

/// Where a callback's drive of the wrapped sink stands.
#[derive(Debug)]
pub enum DrivePhase<T, E> {
    /// No callback in progress.
    Idle,
    /// A write callback waits for the sink to be ready for this chunk.
    Readying(T),
    /// The chunk is being handed to the sink.
    Sending,
    /// A write callback waits for the sink to flush.
    Flushing,
    /// A close callback waits for the sink to close.
    Closing,
    /// An abort callback waits for the sink to close.
    Aborting,
    /// A write failed; the sink's error is recorded and later writes and
    /// closes are rejected with it.
    Errored(E),
    /// The sink was closed, or its close was attempted by an abort.
    Finished,
}

/// What the embedding program does next for a callback.
#[derive(Debug, PartialEq, Eq)]
pub enum DriveAction<T, E> {
    /// Poll the sink's readiness and report the poll to `polled`.
    PollReady,
    /// Hand this chunk to the sink and report the result to `sent`.
    StartSend(T),
    /// Poll the sink's flush and report the poll to `polled`.
    PollFlush,
    /// Poll the sink's close and report the poll to `polled`.
    PollClose,
    /// Resolve the callback's completion signal with success.
    Resolve,
    /// Fail the callback's completion signal with this error.
    Reject(E),
    /// Fail the callback's completion signal with the recorded error (see `error`).
    RejectRecorded,
}

/// The stream's backing callbacks over one exclusively owned poll-based sink.
#[derive(Debug)]
pub struct IntoUnderlyingSink<T, E> {
    phase: DrivePhase<T, E>,
}

/// True in the phases that wait for a poll of the sink.
pub open spec fn polling<T, E>(p: DrivePhase<T, E>) -> bool {
    p is Readying || p is Flushing || p is Closing || p is Aborting
}

/// Phase and action after a poll of the sink in phase `p`; `None` is a poll
/// that is still pending.
pub open spec fn poll_step<T, E>(p: DrivePhase<T, E>, poll: Option<Result<(), E>>) -> (
    DrivePhase<T, E>,
    DriveAction<T, E>,
) {
    match poll {
        None => (
            p,
            match p {
                DrivePhase::Readying(_) => DriveAction::PollReady,
                DrivePhase::Flushing => DriveAction::PollFlush,
                _ => DriveAction::PollClose,
            },
        ),
        Some(Ok(_)) => match p {
            DrivePhase::Readying(chunk) => (DrivePhase::Sending, DriveAction::StartSend(chunk)),
            DrivePhase::Flushing => (DrivePhase::Idle, DriveAction::Resolve),
            _ => (DrivePhase::Finished, DriveAction::Resolve),
        },
        Some(Err(e)) => match p {
            DrivePhase::Closing => (DrivePhase::Finished, DriveAction::Reject(e)),
            DrivePhase::Aborting => (DrivePhase::Finished, DriveAction::Resolve),
            _ => (DrivePhase::Errored(e), DriveAction::RejectRecorded),
        },
    }
}

/// Phase and action after the chunk was handed to the sink.
pub open spec fn sent_step<T, E>(r: Result<(), E>) -> (DrivePhase<T, E>, DriveAction<T, E>) {
    match r {
        Ok(_) => (DrivePhase::Flushing, DriveAction::PollFlush),
        Err(e) => (DrivePhase::Errored(e), DriveAction::RejectRecorded),
    }
}

/// The chunks handed to the sink among `acts`, in order.
pub open spec fn sends_of<T, E>(acts: Seq<DriveAction<T, E>>) -> Seq<T>
    decreases acts.len(),
{
    if acts.len() == 0 {
        Seq::empty()
    } else {
        let rest = sends_of(acts.drop_last());
        match acts.last() {
            DriveAction::StartSend(c) => rest.push(c),
            _ => rest,
        }
    }
}

/// Phase and actions of a write callback for `chunk`, from idle, over a sink
/// whose every poll is ready and succeeds.
pub open spec fn forward_one<T, E>(chunk: T) -> (DrivePhase<T, E>, Seq<DriveAction<T, E>>) {
    let (p1, a1) = poll_step::<T, E>(DrivePhase::Readying(chunk), Some(Ok(())));
    let (p2, a2) = sent_step::<T, E>(Ok(()));
    let (p3, a3) = poll_step::<T, E>(p2, Some(Ok(())));
    (p3, seq![DriveAction::PollReady, a1, a2, a3])
}

/// Phase and actions of write callbacks for `chunks` in turn, over a sink
/// whose every poll is ready and succeeds.
pub open spec fn forward_all<T, E>(chunks: Seq<T>) -> (DrivePhase<T, E>, Seq<DriveAction<T, E>>)
    decreases chunks.len(),
{
    if chunks.len() == 0 {
        (DrivePhase::Idle, Seq::empty())
    } else {
        let (_, acts) = forward_all::<T, E>(chunks.drop_last());
        let (q, more) = forward_one::<T, E>(chunks.last());
        (q, acts + more)
    }
}

proof fn lemma_sends_of_concat<T, E>(a: Seq<DriveAction<T, E>>, b: Seq<DriveAction<T, E>>)
    ensures
        sends_of(a + b) == sends_of(a) + sends_of(b),
    decreases b.len(),
{
    if b.len() == 0 {
        assert(a + b =~= a);
        assert(sends_of(b) =~= Seq::<T>::empty());
        assert(sends_of(a) + sends_of(b) =~= sends_of(a));
    } else {
        lemma_sends_of_concat(a, b.drop_last());
        assert((a + b).drop_last() =~= a + b.drop_last());
        match b.last() {
            DriveAction::StartSend(c) => {
                assert(sends_of(a) + sends_of(b.drop_last()).push(c) =~= (sends_of(a) + sends_of(
                    b.drop_last(),
                )).push(c));
            },
            _ => {},
        }
    }
}

/// Write callbacks over a sink that is always ready hand it each chunk once,
/// in order, and each callback resolves with success and leaves the adapter idle.
pub proof fn lemma_forward_all<T, E>(chunks: Seq<T>)
    ensures
        forward_all::<T, E>(chunks).0 is Idle,
        sends_of(forward_all::<T, E>(chunks).1) == chunks,
        forall|c: T|
            (#[trigger] forward_one::<T, E>(c)).1.last() == DriveAction::<T, E>::Resolve
                && forward_one::<T, E>(c).0 is Idle,
    decreases chunks.len(),
{
    if chunks.len() > 0 {
        let init = chunks.drop_last();
        lemma_forward_all::<T, E>(init);
        let c = chunks.last();
        let (_, acts) = forward_all::<T, E>(init);
        let (_, more) = forward_one::<T, E>(c);
        lemma_sends_of_concat(acts, more);
        reveal_with_fuel(sends_of, 5);
        assert(more.drop_last().drop_last().drop_last().drop_last() =~= Seq::<
            DriveAction<T, E>,
        >::empty());
        assert(sends_of(more) =~= seq![c]);
        assert(init.push(c) =~= chunks);
    }
}

impl<T, E> IntoUnderlyingSink<T, E> {
    /// The drive's phase.
    pub closed spec fn phase(&self) -> DrivePhase<T, E> {
        self.phase
    }

    /// Callbacks over a sink that nothing has been sent to.
    pub fn new() -> (r: Self)
        ensures
            r.phase() is Idle,
    {
        IntoUnderlyingSink { phase: DrivePhase::Idle }
    }

    /// True iff no callback is in progress, no write failed and the sink is
    /// not finished.
    pub fn is_idle(&self) -> (r: bool)
        ensures
            r == (self.phase() is Idle),
    {
        match self.phase {
            DrivePhase::Idle => true,
            _ => false,
        }
    }

    /// True iff the sink was closed, or its close attempted by an abort.
    pub fn is_finished(&self) -> (r: bool)
        ensures
            r == (self.phase() is Finished),
    {
        match self.phase {
            DrivePhase::Finished => true,
            _ => false,
        }
    }

    /// True iff a callback is in progress.
    pub fn is_busy(&self) -> (r: bool)
        ensures
            r == polling(self.phase()) || self.phase() is Sending,
    {
        match self.phase {
            DrivePhase::Idle | DrivePhase::Errored(_) | DrivePhase::Finished => false,
            _ => true,
        }
    }

    /// The recorded error, once a write has failed.
    pub fn error(&self) -> (r: Option<&E>)
        ensures
            self.phase() is Errored ==> r == Some(&self.phase()->Errored_0),
            !(self.phase() is Errored) ==> r is None,
    {
        match &self.phase {
            DrivePhase::Errored(e) => Some(e),
            _ => None,
        }
    }

    /// The write callback: the sink is polled until ready, given the chunk,
    /// then polled until flushed. After a failed write it is rejected with
    /// the recorded error, and the sink is left alone.
    pub fn write(&mut self, chunk: T) -> (a: DriveAction<T, E>)
        requires
            old(self).phase() is Idle || old(self).phase() is Errored,
        ensures
            old(self).phase() is Idle ==> final(self).phase() == DrivePhase::<T, E>::Readying(chunk)
                && a == DriveAction::<T, E>::PollReady,
            old(self).phase() is Errored ==> final(self).phase() == old(self).phase() && a
                == DriveAction::<T, E>::RejectRecorded,
    {
        match self.phase {
            DrivePhase::Errored(_) => DriveAction::RejectRecorded,
            _ => {
                self.phase = DrivePhase::Readying(chunk);
                DriveAction::PollReady
            },
        }
    }

    /// The close callback: the sink is polled until closed. After a failed
    /// write it is rejected with the recorded error.
    pub fn close(&mut self) -> (a: DriveAction<T, E>)
        requires
            old(self).phase() is Idle || old(self).phase() is Errored,
        ensures
            old(self).phase() is Idle ==> final(self).phase() == DrivePhase::<T, E>::Closing && a
                == DriveAction::<T, E>::PollClose,
            old(self).phase() is Errored ==> final(self).phase() == old(self).phase() && a
                == DriveAction::<T, E>::RejectRecorded,
    {
        match self.phase {
            DrivePhase::Errored(_) => DriveAction::RejectRecorded,
            _ => {
                self.phase = DrivePhase::Closing;
                DriveAction::PollClose
            },
        }
    }

    /// The abort callback: the sink's close is attempted, also after a failed
    /// write, and its failure is not the callback's. Once the sink is finished
    /// it resolves at once.
    pub fn abort(&mut self) -> (a: DriveAction<T, E>)
        requires
            old(self).phase() is Idle || old(self).phase() is Errored || old(self).phase() is Finished,
        ensures
            old(self).phase() is Finished ==> final(self).phase() == DrivePhase::<T, E>::Finished
                && a == DriveAction::<T, E>::Resolve,
            !(old(self).phase() is Finished) ==> final(self).phase() == DrivePhase::<T, E>::Aborting
                && a == DriveAction::<T, E>::PollClose,
    {
        match self.phase {
            DrivePhase::Finished => DriveAction::Resolve,
            _ => {
                self.phase = DrivePhase::Aborting;
                DriveAction::PollClose
            },
        }
    }

    /// Reports a poll of the sink.
    pub fn polled(&mut self, poll: Option<Result<(), E>>) -> (a: DriveAction<T, E>)
        requires
            polling(old(self).phase()),
        ensures
            (final(self).phase(), a) == poll_step(old(self).phase(), poll),
    {
        let mut phase = DrivePhase::Idle;
        std::mem::swap(&mut self.phase, &mut phase);
        match poll {
            None => {
                let a = match phase {
                    DrivePhase::Readying(_) => DriveAction::PollReady,
                    DrivePhase::Flushing => DriveAction::PollFlush,
                    _ => DriveAction::PollClose,
                };
                self.phase = phase;
                a
            },
            Some(Ok(())) => match phase {
                DrivePhase::Readying(chunk) => {
                    self.phase = DrivePhase::Sending;
                    DriveAction::StartSend(chunk)
                },
                DrivePhase::Flushing => {
                    self.phase = DrivePhase::Idle;
                    DriveAction::Resolve
                },
                _ => {
                    self.phase = DrivePhase::Finished;
                    DriveAction::Resolve
                },
            },
            Some(Err(e)) => match phase {
                DrivePhase::Closing => {
                    self.phase = DrivePhase::Finished;
                    DriveAction::Reject(e)
                },
                DrivePhase::Aborting => {
                    self.phase = DrivePhase::Finished;
                    DriveAction::Resolve
                },
                _ => {
                    self.phase = DrivePhase::Errored(e);
                    DriveAction::RejectRecorded
                },
            },
        }
    }

    /// Reports the result of handing the chunk to the sink.
    pub fn sent(&mut self, r: Result<(), E>) -> (a: DriveAction<T, E>)
        requires
            old(self).phase() is Sending,
        ensures
            (final(self).phase(), a) == sent_step::<T, E>(r),
    {
        match r {
            Ok(()) => {
                self.phase = DrivePhase::Flushing;
                DriveAction::PollFlush
            },
            Err(e) => {
                self.phase = DrivePhase::Errored(e);
                DriveAction::RejectRecorded
            },
        }
    }
}

} // verus!
