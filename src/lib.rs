//! Byte-oriented read and write adapters over message-oriented transports.
//!
//! `StreamRead` turns a producer of byte-buffer items into a resumable,
//! non-blocking byte reader; `SinkWrite` turns a consumer of byte-buffer items
//! into a non-blocking byte writer. Both are driven by the caller: whenever an
//! adapter needs the transport, the caller performs that one poll and hands
//! its outcome in, and the adapter decides what the byte-oriented call
//! returns.
pub mod outcome;
pub mod sink_write;
pub mod stream_read;

pub use outcome::{CompletePoll, IoFailure, Readiness, SendPoll, StreamPoll};
pub use sink_write::SinkWrite;
pub use stream_read::{ReadModel, StreamRead};
