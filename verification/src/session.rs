//! The socket session core: the handshake decision, the read pipeline
//! over one transport message, the outgoing frames, and the session
//! state machine.
//!
//! All I/O stays outside the library; the asynchronous shell feeds each
//! received transport message in as plain text and writes the returned
//! frames out.

use vstd::prelude::*;
use crate::{SessionError, TERMINATOR};
use crate::envelope::{SocketMessage, SocketMessageType, envelope_of_text};
use crate::frames::{decode_frames, split_frames};
use crate::json::{JsonView, json_of, lookup_spec, lookup, parse_json};
use crate::registry::{MessageRequest, MessageResponse, MessageResponseView, resolve, resolve_spec};
use crate::text::{chars_to_string, str_to_chars};

verus! {

/// Why the handshake failed.
#[derive(Clone, Copy, Debug, PartialEq, Eq, Structural)]
pub enum HandshakeError {
    /// The stream ended before any response arrived.
    StreamClosed,
    /// The server answered with a non-null error value.
    Rejected,
    /// The response was not a handshake response document.
    MalformedResponse,
}

/// The life of a session: created, negotiating, open for traffic, and
/// closed for good.
#[derive(Clone, Copy, Debug, PartialEq, Eq, Structural)]
pub enum SessionState {
    Connecting,
    Handshaking,
    Open,
    Closed,
}

/// The exact text of the handshake request document, terminator
/// excluded.
pub open spec fn handshake_request_text() -> Seq<char> {
    "{\"protocol\":\"json\",\"version\":1}"@
}

/// What a handshake response transport message means: the first frame
/// must be a JSON object; an absent or null `error` binding accepts the
/// handshake, any other `error` value rejects it, and anything else is
/// malformed.  A message with no frame at all is malformed.
pub open spec fn handshake_outcome(s: Seq<char>) -> Result<(), HandshakeError> {
    let frames = split_frames(s);
    if frames.len() == 0 {
        Err(HandshakeError::MalformedResponse)
    } else {
        match json_of(frames[0]) {
            Some(JsonView::Obj(fields)) => match lookup_spec(fields, "error"@) {
                None => Ok(()),
                Some(JsonView::Null) => Ok(()),
                Some(_) => Err(HandshakeError::Rejected),
            },
            _ => Err(HandshakeError::MalformedResponse),
        }
    }
}

/// What one transport message's text decodes to: its frames in order,
/// each through the envelope codec and the registry, with unrecognized
/// invocation targets dropped and the first failure aborting the batch.
pub open spec fn batch_spec(frames: Seq<Seq<char>>) -> Result<
    Seq<MessageResponseView>,
    SessionError,
>
    decreases frames.len(),
{
    if frames.len() == 0 {
        Ok(Seq::empty())
    } else {
        match envelope_of_text(frames[0]) {
            Err(e) => Err(e),
            Ok(m) => match resolve_spec(m) {
                Err(e) => Err(e),
                Ok(opt) => match batch_spec(frames.drop_first()) {
                    Err(e) => Err(e),
                    Ok(rest) => Ok(
                        match opt {
                            Some(x) => seq![x] + rest,
                            None => rest,
                        },
                    ),
                },
            },
        }
    }
}

/// The batch one transport message stands for.
pub open spec fn read_spec(s: Seq<char>) -> Result<Seq<MessageResponseView>, SessionError> {
    batch_spec(split_frames(s))
}

/// Decodes the frames from position `i` on, as [`batch_spec`] says.
fn decode_batch_from(frames: &Vec<String>, i: usize) -> (r: Result<
    Vec<MessageResponse>,
    SessionError,
>)
    requires
        i <= frames.len(),
    ensures
        match r {
            Ok(out) => batch_spec(frames.deep_view().skip(i as int)) == Ok::<_, SessionError>(
                out.deep_view(),
            ),
            Err(e) => batch_spec(frames.deep_view().skip(i as int)) == Err::<
                Seq<MessageResponseView>,
                _,
            >(e),
        },
    decreases frames.len() - i,
{
    let ghost tail = frames.deep_view().skip(i as int);
    proof {
        assert(frames.deep_view().len() == frames@.len());
    }
    if i == frames.len() {
        let out: Vec<MessageResponse> = Vec::new();
        proof {
            assert(tail.len() == 0);
            assert(out.deep_view() =~= Seq::<MessageResponseView>::empty());
        }
        return Ok(out);
    }
    proof {
        assert(tail[0] == frames.deep_view()[i as int]);
        assert(frames.deep_view()[i as int] == frames@[i as int]@);
        assert(tail.drop_first() =~= frames.deep_view().skip(i + 1));
    }
    let m = match crate::envelope::decode_envelope(frames[i].as_str()) {
        Ok(m) => m,
        Err(e) => {
            return Err(e);
        },
    };
    let opt = match resolve(&m) {
        Ok(opt) => opt,
        Err(e) => {
            return Err(e);
        },
    };
    let rest = match decode_batch_from(frames, i + 1) {
        Ok(rest) => rest,
        Err(e) => {
            return Err(e);
        },
    };
    match opt {
        Some(x) => {
            let ghost rest_dv = rest.deep_view();
            let ghost rest0 = rest@;
            let ghost xv = x@;
            let mut out: Vec<MessageResponse> = Vec::new();
            out.push(x);
            let mut rest = rest;
            out.append(&mut rest);
            proof {
                assert(out@ =~= seq![out@[0]] + rest0);
                assert forall|j: int| 0 <= j < out@.len() implies out.deep_view()[j] == (seq![xv]
                    + rest_dv)[j] by {
                    if j > 0 {
                        assert(out@[j] == rest0[j - 1]);
                        assert(rest_dv[j - 1] == rest0[j - 1]@);
                    }
                }
                assert(out.deep_view() =~= seq![xv] + rest_dv);
            }
            Ok(out)
        },
        None => Ok(rest),
    }
}

/// Decodes one transport message's text into a batch of messages, as
/// [`read_spec`] says.
pub fn decode_transport_text(s: &str) -> (r: Result<Vec<MessageResponse>, SessionError>)
    ensures
        match r {
            Ok(out) => read_spec(s@) == Ok::<_, SessionError>(out.deep_view()),
            Err(e) => read_spec(s@) == Err::<Seq<MessageResponseView>, _>(e),
        },
{
    let frames = decode_frames(s);
    proof {
        assert(frames.deep_view().skip(0) =~= frames.deep_view());
    }
    decode_batch_from(&frames, 0)
}

/// Appends the terminator to a raw document, making one complete frame.
pub fn frame_text(raw: &str) -> (r: String)
    ensures
        r@ == raw@ + seq![TERMINATOR],
{
    let mut out: Vec<char> = str_to_chars(raw);
    out.push(TERMINATOR);
    let r = chars_to_string(&out);
    proof {
        assert(r@ =~= raw@ + seq![TERMINATOR]);
    }
    r
}

/// The session core: the protocol state, with every decision the
/// protocol takes on received text.  The I/O shell owns the socket and
/// feeds text in.
pub struct SessionCore {
    pub state: SessionState,
}

impl SessionCore {
    /// A fresh session, not yet negotiating.
    pub fn new() -> (r: SessionCore)
        ensures
            r.state is Connecting,
    {
        SessionCore { state: SessionState::Connecting }
    }

    /// Starts the handshake: moves to `Handshaking` and yields the one
    /// frame to transmit, the handshake request document with the
    /// terminator appended.
    pub fn start_handshake(&mut self) -> (r: String)
        requires
            old(self).state is Connecting,
        ensures
            final(self).state is Handshaking,
            r@ == handshake_request_text() + seq![TERMINATOR],
    {
        self.state = SessionState::Handshaking;
        frame_text("{\"protocol\":\"json\",\"version\":1}")
    }

    /// Decides the handshake from the one transport text message
    /// received: accepted opens the session, anything else closes it,
    /// exactly as [`handshake_outcome`] says.
    pub fn on_handshake_message(&mut self, s: &str) -> (r: Result<(), HandshakeError>)
        requires
            old(self).state is Handshaking,
        ensures
            r == handshake_outcome(s@),
            r is Ok ==> final(self).state is Open,
            r is Err ==> final(self).state is Closed,
    {
        let frames = decode_frames(s);
        if frames.len() == 0 {
            self.state = SessionState::Closed;
            return Err(HandshakeError::MalformedResponse);
        }
        proof {
            assert(frames.deep_view()[0] == frames@[0]@);
            assert(split_frames(s@)[0] == frames@[0]@);
        }
        let doc = match parse_json(frames[0].as_str()) {
            Some(doc) => doc,
            None => {
                self.state = SessionState::Closed;
                return Err(HandshakeError::MalformedResponse);
            },
        };
        match &doc {
            crate::json::JsonValue::Obj(fields) => {
                match lookup(fields, "error") {
                    None => {
                        self.state = SessionState::Open;
                        Ok(())
                    },
                    Some(crate::json::JsonValue::Null) => {
                        self.state = SessionState::Open;
                        Ok(())
                    },
                    Some(_) => {
                        self.state = SessionState::Closed;
                        Err(HandshakeError::Rejected)
                    },
                }
            },
            _ => {
                self.state = SessionState::Closed;
                Err(HandshakeError::MalformedResponse)
            },
        }
    }

    /// The stream ended while the handshake response was awaited.
    pub fn on_handshake_stream_end(&mut self) -> (r: HandshakeError)
        requires
            old(self).state is Handshaking,
        ensures
            final(self).state is Closed,
            r is StreamClosed,
    {
        self.state = SessionState::Closed;
        HandshakeError::StreamClosed
    }

    /// A non-text transport message arrived before the handshake
    /// completed: treated as a malformed response.
    pub fn on_handshake_non_text(&mut self) -> (r: HandshakeError)
        requires
            old(self).state is Handshaking,
        ensures
            final(self).state is Closed,
            r is MalformedResponse,
    {
        self.state = SessionState::Closed;
        HandshakeError::MalformedResponse
    }

    /// Decodes one received transport text message into the batch it
    /// carries, as [`read_spec`] says.  The state does not change; a
    /// failed batch surfaces to the caller and loses the whole batch.
    pub fn on_text_message(&self, s: &str) -> (r: Result<Vec<MessageResponse>, SessionError>)
        requires
            self.state is Open,
        ensures
            match r {
                Ok(out) => read_spec(s@) == Ok::<_, SessionError>(out.deep_view()),
                Err(e) => read_spec(s@) == Err::<Seq<MessageResponseView>, _>(e),
            },
    {
        decode_transport_text(s)
    }

    /// A non-text transport message (binary, or a transport-level ping
    /// or pong) arrived on an open session: it carries no frames and is
    /// silently skipped, the session stays exactly as it was, and the
    /// read keeps scanning for a text message.
    pub fn on_non_text_message(&mut self)
        requires
            old(self).state is Open,
        ensures
            *final(self) == *old(self),
    {
    }

    /// The stream ended gracefully: the session closes and the read
    /// yields an empty batch, not an error.
    pub fn on_stream_end(&mut self) -> (r: Vec<MessageResponse>)
        requires
            old(self).state is Open,
        ensures
            final(self).state is Closed,
            r.deep_view() == Seq::<MessageResponseView>::empty(),
    {
        self.state = SessionState::Closed;
        let r: Vec<MessageResponse> = Vec::new();
        proof {
            assert(r.deep_view() =~= Seq::<MessageResponseView>::empty());
        }
        r
    }

    /// Encodes one outgoing request as a complete frame.  A ping is the
    /// bare ping envelope: no target and no arguments on the wire.
    pub fn encode_request(&self, req: &MessageRequest) -> (r: String)
        requires
            self.state is Open,
        ensures
            req is Ping ==> r@ == "{\"type\":6}"@ + seq![TERMINATOR],
    {
        let m = match req {
            MessageRequest::Ping => SocketMessage {
                kind: SocketMessageType::Ping,
                target: None,
                arguments: None,
            },
        };
        crate::envelope::encode_envelope(&m)
    }

    /// Closes the session and says whether a transport-level close frame
    /// should still be sent.  Closing an already-closed session is a
    /// no-op: the state stays `Closed` and no frame is owed, so a second
    /// `close` never fails.
    pub fn close(&mut self) -> (send_close: bool)
        ensures
            final(self).state is Closed,
            send_close == !(old(self).state is Closed),
            old(self).state is Closed ==> !send_close,
    {
        let was_open = !matches!(self.state, SessionState::Closed);
        self.state = SessionState::Closed;
        was_open
    }
}

} // verus!

