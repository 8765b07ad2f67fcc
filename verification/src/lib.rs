//! A verified message-framing decoder for a gRPC-style RPC transport.
//!
//! The library turns a sequence of arbitrarily-sized byte chunks into a
//! sequence of length-prefixed message payloads, hands each payload to a
//! pluggable message codec, and — for response streams — converts trailing
//! metadata into a final RPC outcome.  The asynchronous transport itself is
//! not part of the library: the decoder is a synchronous state machine that
//! reports what it needs next (a chunk, the trailers) and is fed events by
//! whatever drives the underlying byte source.

pub mod buffer;
pub mod frame;
pub mod status;
pub mod streaming;
