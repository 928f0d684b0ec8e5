//! Adapters between a promise-sequenced writable stream and a poll-based sink.
//!
//! The host stream's operations are performed by the embedding program; this
//! library holds the decisions: the single-writer lock of a stream, the state
//! machine that drives a writer through the poll-based sink contract, and the
//! state machine that drives a poll-based sink from the stream's callbacks.

pub mod into_sink;
pub mod into_underlying_sink;
pub mod lock;
pub mod round_trip;

pub use into_sink::{IntoSink, SinkAction, SinkPhase};
pub use into_underlying_sink::{DriveAction, DrivePhase, IntoUnderlyingSink};
pub use lock::{HIGH_WATER_MARK, LockError, WritableStream, WritableStreamDefaultWriter};
