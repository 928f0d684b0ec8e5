//! The writer lock of a stream: at most one writer handle at a time.
use vstd::prelude::*;
use vstd::pervasive::arbitrary;
use crate::into_sink::IntoSink;
use crate::into_underlying_sink::IntoUnderlyingSink;

verus! {

/// Why a writer could not be acquired.
#[derive(Debug, Clone, Copy, PartialEq, Eq, Structural)]
pub enum LockError {
    /// A writer handle of the stream is still outstanding.
    AlreadyLocked,
}

/// Chunks that a stream built over a sink queues before it applies
/// backpressure: one, so that one chunk at a time is in flight to the sink.
pub const HIGH_WATER_MARK: u32 = 1;

/// One writable stream, seen through its writer lock and whether it was aborted.
pub struct WritableStream {
    locked: bool,
    aborted: bool,
    id: Ghost<int>,
}

/// Exclusive write access to a stream, until it is released.
pub struct WritableStreamDefaultWriter {
    held: bool,
    stream_id: Ghost<int>,
}

impl WritableStream {
    /// Whether a writer handle is outstanding.
    pub closed spec fn locked(&self) -> bool {
        self.locked
    }

    /// Whether the stream was aborted.
    pub closed spec fn aborted(&self) -> bool {
        self.aborted
    }

    /// The stream's identity, which its writers record.
    pub closed spec fn id(&self) -> int {
        self.id@
    }

    /// A writable stream with no writer handle outstanding.
    pub fn new() -> (r: Self)
        ensures
            !r.locked(),
            !r.aborted(),
    {
        WritableStream { locked: false, aborted: false, id: Ghost(arbitrary()) }
    }

    /// A new stream backed by callbacks over a sink, with no writer outstanding.
    /// The stream is to be built with a high-water mark of `HIGH_WATER_MARK`.
    pub fn from_sink<T, E>() -> (r: (Self, IntoUnderlyingSink<T, E>))
        ensures
            !r.0.locked(),
            !r.0.aborted(),
            r.1.phase() is Idle,
    {
        (WritableStream::new(), IntoUnderlyingSink::new())
    }

    /// Records that the stream was aborted, whether or not a writer is
    /// outstanding; its writers, held or taken later, see it errored.
    pub fn abort(&mut self)
        ensures
            final(self).aborted(),
            final(self).locked() == old(self).locked(),
            final(self).id() == old(self).id(),
    {
        self.aborted = true;
    }

    /// True iff the stream was aborted.
    pub fn is_aborted(&self) -> (r: bool)
        ensures
            r == self.aborted(),
    {
        self.aborted
    }

    /// True iff a writer handle is outstanding.
    pub fn is_locked(&self) -> (r: bool)
        ensures
            r == self.locked(),
    {
        self.locked
    }

    /// Takes the writer lock. Fails, and leaves the stream as it was, when it
    /// is already taken.
    pub fn get_writer(&mut self) -> (r: Result<WritableStreamDefaultWriter, LockError>)
        ensures
            old(self).locked() ==> r == Err::<WritableStreamDefaultWriter, LockError>(
                LockError::AlreadyLocked,
            ),
            !old(self).locked() ==> (r matches Ok(w) && w.holds_lock() && w.stream_id() == old(
                self,
            ).id()),
            final(self).locked(),
            final(self).aborted() == old(self).aborted(),
            final(self).id() == old(self).id(),
    {
        if self.locked {
            Err(LockError::AlreadyLocked)
        } else {
            self.locked = true;
            Ok(WritableStreamDefaultWriter { held: true, stream_id: Ghost(self.id@) })
        }
    }

    /// Takes the writer lock and wraps the writer in an idle sink adapter,
    /// which comes with the stream, now locked. When the lock is taken
    /// already, hands the stream back unchanged with the error.
    pub fn into_sink<T, E>(self) -> (r: Result<(IntoSink<T, E>, Self), (Self, LockError)>)
        ensures
            self.locked() ==> (r matches Err((s, e)) && s == self && e == LockError::AlreadyLocked),
            !self.locked() ==> (r matches Ok((k, s)) && k.phase() is Idle && k.holds_lock()
                && k.stream_id() == self.id() && s.id() == self.id() && s.locked() && s.aborted()
                == self.aborted()),
    {
        if self.locked {
            Err((self, LockError::AlreadyLocked))
        } else {
            let mut stream = self;
            let writer = WritableStreamDefaultWriter { held: true, stream_id: Ghost(stream.id@) };
            stream.locked = true;
            Ok((IntoSink::new(writer), stream))
        }
    }
}

impl WritableStreamDefaultWriter {
    /// Whether this handle still holds its stream's lock.
    pub closed spec fn holds_lock(&self) -> bool {
        self.held
    }

    /// The identity of the stream this handle was taken from.
    pub closed spec fn stream_id(&self) -> int {
        self.stream_id@
    }

    /// True iff `stream`, the stream this handle was taken from, was aborted;
    /// the handle's signals then fail.
    pub fn is_errored(&self, stream: &WritableStream) -> (r: bool)
        requires
            stream.id() == self.stream_id(),
        ensures
            r == stream.aborted(),
    {
        stream.aborted
    }

    /// True iff this handle has not been released.
    pub fn is_held(&self) -> (r: bool)
        ensures
            r == self.holds_lock(),
    {
        self.held
    }

    /// Gives the lock back to `stream`, the stream this handle was taken from.
    /// Calling it again does nothing.
    pub fn release_lock(&mut self, stream: &mut WritableStream)
        requires
            old(stream).id() == old(self).stream_id(),
        ensures
            !final(self).holds_lock(),
            final(self).stream_id() == old(self).stream_id(),
            old(self).holds_lock() ==> !final(stream).locked(),
            !old(self).holds_lock() ==> final(stream).locked() == old(stream).locked(),
            final(stream).aborted() == old(stream).aborted(),
            final(stream).id() == old(stream).id(),
    {
        if self.held {
            stream.locked = false;
            self.held = false;
        }
    }

    /// Wraps this handle in an idle sink adapter.
    pub fn into_sink<T, E>(self) -> (r: IntoSink<T, E>)
        ensures
            r.phase() is Idle,
            r.holds_lock() == self.holds_lock(),
            r.stream_id() == self.stream_id(),
    {
        IntoSink::new(self)
    }
}

} // verus!
