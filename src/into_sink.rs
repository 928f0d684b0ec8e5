//! Drives a writer handle through the poll-based sink contract.
//!
//! Each operation of the sink returns the one host call that the embedding
//! program performs next; the outcome of that call is reported back through
//! the matching `*_resolved` method. A new chunk is written only after the
//! previous write has resolved and after the writer has reported ready.
use vstd::prelude::*;
use crate::lock::{WritableStream, WritableStreamDefaultWriter};

verus! {

/// Where the sink adapter stands.
#[derive(Debug)]
pub enum SinkPhase<T, E> {
    /// No chunk pending.
    Idle,
    /// The writer's ready signal is awaited; the chunk is written after it.
    Waiting(T),
    /// A write is outstanding.
    Sending,
    /// A close is outstanding.
    Closing,
    /// A host call failed; the failure is recorded.
    Errored(E),
    /// The stream was closed.
    Closed,
}

/// What the embedding program does next for a sink operation.
#[derive(Debug, PartialEq, Eq)]
pub enum SinkAction<T> {
    /// Await the writer's ready signal (from a flush: the one already
    /// requested), then report it to `ready_resolved`.
    AwaitReady,
    /// Write this chunk, await its completion, then report it to `write_resolved`.
    Write(T),
    /// Await the outstanding write, then report it to `write_resolved`.
    AwaitWrite,
    /// Close the writer, await the completion, then report it to `close_resolved`.
    Close,
    /// The operation completed.
    Done,
    /// The operation failed with the recorded error (see `error`).
    Failed,
    /// The operation failed: the sink is already closed.
    AlreadyClosed,
}

/// A writer handle driven as a poll-based sink.
pub struct IntoSink<T, E> {
    writer: WritableStreamDefaultWriter,
    phase: SinkPhase<T, E>,
}

/// True in the phases where a host call is outstanding.
pub open spec fn in_flight<T, E>(p: SinkPhase<T, E>) -> bool {
    p is Waiting || p is Sending || p is Closing
}

/// Phase and action after a send request; `capacity` tells whether the
/// writer's desired size allows a write without waiting.
pub open spec fn send_step<T, E>(p: SinkPhase<T, E>, chunk: T, capacity: bool) -> (
    SinkPhase<T, E>,
    SinkAction<T>,
) {
    match p {
        SinkPhase::Errored(e) => (SinkPhase::Errored(e), SinkAction::Failed),
        SinkPhase::Closed => (SinkPhase::Closed, SinkAction::AlreadyClosed),
        _ => if capacity {
            (SinkPhase::Sending, SinkAction::Write(chunk))
        } else {
            (SinkPhase::Waiting(chunk), SinkAction::AwaitReady)
        },
    }
}

/// Phase and action once the awaited ready signal of `Waiting(chunk)` resolved.
pub open spec fn ready_step<T, E>(chunk: T, r: Result<(), E>) -> (SinkPhase<T, E>, SinkAction<T>) {
    match r {
        Ok(_) => (SinkPhase::Sending, SinkAction::Write(chunk)),
        Err(e) => (SinkPhase::Errored(e), SinkAction::Failed),
    }
}

/// Phase and action once an outstanding write or close resolved; `ok_phase`
/// is where success leads.
pub open spec fn resolved_step<T, E>(ok_phase: SinkPhase<T, E>, r: Result<(), E>) -> (
    SinkPhase<T, E>,
    SinkAction<T>,
) {
    match r {
        Ok(_) => (ok_phase, SinkAction::Done),
        Err(e) => (SinkPhase::Errored(e), SinkAction::Failed),
    }
}

/// Action of a flush: it waits for the chunk already sent to be written,
/// first for the ready signal when that is still awaited; with nothing in
/// flight, in any other phase, it is done at once.
pub open spec fn flush_step<T, E>(p: SinkPhase<T, E>) -> SinkAction<T> {
    match p {
        SinkPhase::Waiting(_) => SinkAction::AwaitReady,
        SinkPhase::Sending => SinkAction::AwaitWrite,
        _ => SinkAction::Done,
    }
}

/// Phase and action after a close request.
pub open spec fn close_step<T, E>(p: SinkPhase<T, E>) -> (SinkPhase<T, E>, SinkAction<T>) {
    match p {
        SinkPhase::Errored(e) => (SinkPhase::Errored(e), SinkAction::Failed),
        SinkPhase::Closed => (SinkPhase::Closed, SinkAction::AlreadyClosed),
        _ => (SinkPhase::Closing, SinkAction::Close),
    }
}

/// The chunks of the writes among `acts`, in order.
pub open spec fn writes_of<T>(acts: Seq<SinkAction<T>>) -> Seq<T>
    decreases acts.len(),
{
    if acts.len() == 0 {
        Seq::empty()
    } else {
        let rest = writes_of(acts.drop_last());
        match acts.last() {
            SinkAction::Write(c) => rest.push(c),
            _ => rest,
        }
    }
}

/// Phase and host calls for one send to a writer whose every call succeeds.
pub open spec fn send_one<T, E>(p: SinkPhase<T, E>, chunk: T, capacity: bool) -> (
    SinkPhase<T, E>,
    Seq<SinkAction<T>>,
) {
    let (p1, a1) = send_step(p, chunk, capacity);
    if a1 is AwaitReady {
        let (p2, a2) = ready_step::<T, E>(chunk, Ok(()));
        let (p3, a3) = resolved_step(SinkPhase::<T, E>::Idle, Ok(()));
        (p3, seq![a1, a2, a3])
    } else if a1 is Write {
        let (p3, a3) = resolved_step(SinkPhase::<T, E>::Idle, Ok(()));
        (p3, seq![a1, a3])
    } else {
        (p1, seq![a1])
    }
}

/// Phase and host calls after `chunks` are sent in turn from an idle adapter to
/// a writer whose every call succeeds; `caps[i]` is the capacity reported
/// before the send of `chunks[i]`.
pub open spec fn deliver<T, E>(chunks: Seq<T>, caps: Seq<bool>) -> (
    SinkPhase<T, E>,
    Seq<SinkAction<T>>,
)
    decreases chunks.len(),
{
    if chunks.len() == 0 {
        (SinkPhase::Idle, Seq::empty())
    } else {
        let (p, acts) = deliver::<T, E>(chunks.drop_last(), caps);
        let (q, more) = send_one(p, chunks.last(), caps[chunks.len() - 1]);
        (q, acts + more)
    }
}

proof fn lemma_writes_of_concat<T>(a: Seq<SinkAction<T>>, b: Seq<SinkAction<T>>)
    ensures
        writes_of(a + b) == writes_of(a) + writes_of(b),
    decreases b.len(),
{
    if b.len() == 0 {
        assert(a + b =~= a);
        assert(writes_of(b) =~= Seq::<T>::empty());
        assert(writes_of(a) + writes_of(b) =~= writes_of(a));
    } else {
        lemma_writes_of_concat(a, b.drop_last());
        assert((a + b).drop_last() =~= a + b.drop_last());
        assert((a + b).last() == b.last());
        match b.last() {
            SinkAction::Write(c) => {
                assert(writes_of(a) + writes_of(b.drop_last()).push(c) =~= (writes_of(a)
                    + writes_of(b.drop_last())).push(c));
            },
            _ => {},
        }
    }
}

/// Chunks sent through the adapter reach a writer that accepts every call
/// exactly once each and in the order sent, and the adapter returns to idle;
/// a close then issues the writer's close and completes only once that close
/// has succeeded.
pub proof fn lemma_in_order_delivery<T, E>(chunks: Seq<T>, caps: Seq<bool>)
    requires
        caps.len() >= chunks.len(),
    ensures
        deliver::<T, E>(chunks, caps).0 is Idle,
        writes_of(deliver::<T, E>(chunks, caps).1) == chunks,
        close_step(deliver::<T, E>(chunks, caps).0) == (
        SinkPhase::<T, E>::Closing,
        SinkAction::<T>::Close,
        ),
        resolved_step(SinkPhase::<T, E>::Closed, Ok::<(), E>(())) == (
        SinkPhase::<T, E>::Closed,
        SinkAction::<T>::Done,
        ),
        forall|e: E|
            resolved_step(SinkPhase::<T, E>::Closed, Err::<(), E>(e)).1 == SinkAction::<T>::Failed,
    decreases chunks.len(),
{
    if chunks.len() > 0 {
        let init = chunks.drop_last();
        lemma_in_order_delivery::<T, E>(init, caps);
        let (p, acts) = deliver::<T, E>(init, caps);
        let c = chunks.last();
        let cap = caps[chunks.len() - 1];
        let (q, more) = send_one(p, c, cap);
        lemma_writes_of_concat(acts, more);
        reveal_with_fuel(writes_of, 4);
        if cap {
            assert(more.drop_last().drop_last() =~= Seq::<SinkAction<T>>::empty());
            assert(writes_of(more) =~= seq![c]);
        } else {
            assert(more.drop_last().drop_last().drop_last() =~= Seq::<SinkAction<T>>::empty());
            assert(writes_of(more) =~= seq![c]);
        }
        assert(init.push(c) =~= chunks);
    }
}

/// A write is issued only by a send, which is allowed only while no host call
/// of the adapter is outstanding, or once the ready signal that the send waited
/// for resolved; it leaves the adapter sending, and no other step issues one or
/// enters that phase. So at most one write is outstanding at any time.
pub proof fn lemma_single_write_in_flight<T, E>()
    ensures
        forall|p: SinkPhase<T, E>, c: T, cap: bool|
            !in_flight(p) && (#[trigger] send_step(p, c, cap)).1 is Write ==> send_step(
                p,
                c,
                cap,
            ).0 is Sending,
        forall|c: T, r: Result<(), E>|
            (#[trigger] ready_step(c, r)).1 is Write ==> ready_step(c, r).0 is Sending,
        forall|r: Result<(), E>|
            !((#[trigger] resolved_step(SinkPhase::<T, E>::Idle, r)).1 is Write) && !(resolved_step(
                SinkPhase::<T, E>::Idle,
                r,
            ).0 is Sending),
        forall|r: Result<(), E>|
            !((#[trigger] resolved_step(SinkPhase::<T, E>::Closed, r)).1 is Write) && !(
            resolved_step(SinkPhase::<T, E>::Closed, r).0 is Sending),
        forall|p: SinkPhase<T, E>| !(#[trigger] flush_step(p) is Write),
        forall|p: SinkPhase<T, E>| !((#[trigger] close_step(p)).1 is Write),
{
}

impl<T, E> IntoSink<T, E> {
    /// The adapter's phase.
    pub closed spec fn phase(&self) -> SinkPhase<T, E> {
        self.phase
    }

    /// Whether the adapter still holds its writer's lock.
    pub closed spec fn holds_lock(&self) -> bool {
        self.writer.holds_lock()
    }

    /// The identity of the stream whose writer this adapter drives.
    pub closed spec fn stream_id(&self) -> int {
        self.writer.stream_id()
    }

    /// An idle adapter over `writer`.
    pub fn new(writer: WritableStreamDefaultWriter) -> (r: Self)
        ensures
            r.phase() is Idle,
            r.holds_lock() == writer.holds_lock(),
            r.stream_id() == writer.stream_id(),
    {
        IntoSink { writer, phase: SinkPhase::Idle }
    }

    /// True iff a host call of this adapter is outstanding.
    pub fn is_busy(&self) -> (r: bool)
        ensures
            r == in_flight(self.phase()),
    {
        match self.phase {
            SinkPhase::Waiting(_) | SinkPhase::Sending | SinkPhase::Closing => true,
            _ => false,
        }
    }

    /// True iff the adapter is closed.
    pub fn is_closed(&self) -> (r: bool)
        ensures
            r == (self.phase() is Closed),
    {
        match self.phase {
            SinkPhase::Closed => true,
            _ => false,
        }
    }

    /// The recorded error, once a host call has failed.
    pub fn error(&self) -> (r: Option<&E>)
        ensures
            self.phase() is Errored ==> r == Some(&self.phase()->Errored_0),
            !(self.phase() is Errored) ==> r is None,
    {
        match &self.phase {
            SinkPhase::Errored(e) => Some(e),
            _ => None,
        }
    }

    /// Sends one chunk. Requires that no host call of the adapter is outstanding.
    pub fn send(&mut self, chunk: T, capacity: bool) -> (r: SinkAction<T>)
        requires
            !in_flight(old(self).phase()),
        ensures
            (final(self).phase(), r) == send_step(old(self).phase(), chunk, capacity),
            final(self).holds_lock() == old(self).holds_lock(),
            final(self).stream_id() == old(self).stream_id(),
    {
        match self.phase {
            SinkPhase::Errored(_) => SinkAction::Failed,
            SinkPhase::Closed => SinkAction::AlreadyClosed,
            _ => {
                if capacity {
                    self.phase = SinkPhase::Sending;
                    SinkAction::Write(chunk)
                } else {
                    self.phase = SinkPhase::Waiting(chunk);
                    SinkAction::AwaitReady
                }
            },
        }
    }

    /// Reports the awaited ready signal; on success the pending chunk is written.
    pub fn ready_resolved(&mut self, r: Result<(), E>) -> (a: SinkAction<T>)
        requires
            old(self).phase() is Waiting,
        ensures
            (final(self).phase(), a) == ready_step(old(self).phase()->Waiting_0, r),
            final(self).holds_lock() == old(self).holds_lock(),
            final(self).stream_id() == old(self).stream_id(),
    {
        let mut phase = SinkPhase::Idle;
        std::mem::swap(&mut self.phase, &mut phase);
        match phase {
            SinkPhase::Waiting(chunk) => match r {
                Ok(()) => {
                    self.phase = SinkPhase::Sending;
                    SinkAction::Write(chunk)
                },
                Err(e) => {
                    self.phase = SinkPhase::Errored(e);
                    SinkAction::Failed
                },
            },
            other => {
                self.phase = other;
                SinkAction::Failed
            },
        }
    }

    /// Reports the completion of the outstanding write.
    pub fn write_resolved(&mut self, r: Result<(), E>) -> (a: SinkAction<T>)
        requires
            old(self).phase() is Sending,
        ensures
            (final(self).phase(), a) == resolved_step(SinkPhase::<T, E>::Idle, r),
            final(self).holds_lock() == old(self).holds_lock(),
            final(self).stream_id() == old(self).stream_id(),
    {
        match r {
            Ok(()) => {
                self.phase = SinkPhase::Idle;
                SinkAction::Done
            },
            Err(e) => {
                self.phase = SinkPhase::Errored(e);
                SinkAction::Failed
            },
        }
    }

    /// Flushes: waits for the ready signal and the write of a chunk already
    /// sent, if any; issues no host call of its own.
    pub fn flush(&self) -> (a: SinkAction<T>)
        ensures
            a == flush_step(self.phase()),
    {
        match self.phase {
            SinkPhase::Waiting(_) => SinkAction::AwaitReady,
            SinkPhase::Sending => SinkAction::AwaitWrite,
            _ => SinkAction::Done,
        }
    }

    /// Closes the writer. Requires that no host call of the adapter is outstanding.
    pub fn close(&mut self) -> (a: SinkAction<T>)
        requires
            !in_flight(old(self).phase()),
        ensures
            (final(self).phase(), a) == close_step(old(self).phase()),
            final(self).holds_lock() == old(self).holds_lock(),
            final(self).stream_id() == old(self).stream_id(),
    {
        match self.phase {
            SinkPhase::Errored(_) => SinkAction::Failed,
            SinkPhase::Closed => SinkAction::AlreadyClosed,
            _ => {
                self.phase = SinkPhase::Closing;
                SinkAction::Close
            },
        }
    }

    /// Reports the completion of the outstanding close.
    pub fn close_resolved(&mut self, r: Result<(), E>) -> (a: SinkAction<T>)
        requires
            old(self).phase() is Closing,
        ensures
            (final(self).phase(), a) == resolved_step(SinkPhase::<T, E>::Closed, r),
            final(self).holds_lock() == old(self).holds_lock(),
            final(self).stream_id() == old(self).stream_id(),
    {
        match r {
            Ok(()) => {
                self.phase = SinkPhase::Closed;
                SinkAction::Done
            },
            Err(e) => {
                self.phase = SinkPhase::Errored(e);
                SinkAction::Failed
            },
        }
    }

    /// Gives the writer's lock back to `stream`, the stream it was taken from.
    pub fn release_lock(&mut self, stream: &mut WritableStream)
        requires
            old(stream).id() == old(self).stream_id(),
        ensures
            !final(self).holds_lock(),
            final(self).stream_id() == old(self).stream_id(),
            final(stream).id() == old(stream).id(),
            final(self).phase() == old(self).phase(),
            old(self).holds_lock() ==> !final(stream).locked(),
            !old(self).holds_lock() ==> final(stream).locked() == old(stream).locked(),
            final(stream).aborted() == old(stream).aborted(),
    {
        self.writer.release_lock(stream);
    }
}

} // verus!
