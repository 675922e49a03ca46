//! Client core for a framed, handshake-negotiated real-time messaging
//! protocol carried over a full-duplex text socket.
//!
//! The library covers the protocol logic itself: splitting transport
//! messages into terminator-delimited frames, encoding and decoding wire
//! envelopes, negotiating the one-shot handshake, dispatching typed
//! payloads, and the session state machine.  The surrounding I/O (the
//! HTTP upgrade and the socket reads and writes) lives outside, in the
//! thin asynchronous shell that drives these functions.

use vstd::prelude::*;

pub mod clientsettings;
pub mod envelope;
pub mod frames;
pub mod json;
pub mod payload;
pub mod registry;
pub mod session;
pub mod text;

verus! {

/// Why reading or decoding a batch failed.
///
/// `Parse` is malformed JSON at the envelope or payload level; `Decode`
/// is a well-formed document that misses the expected payload argument
/// or a required field, or carries one of the wrong shape; `Transport`
/// is a network-level failure, raised only by the I/O shell around the
/// library.
#[derive(Clone, Copy, Debug, PartialEq, Eq, Structural)]
pub enum SessionError {
    Transport,
    Parse,
    Decode,
}

/// The single control character that terminates every JSON document on
/// the wire.
pub const TERMINATOR: char = '\x1E';

} // verus!
