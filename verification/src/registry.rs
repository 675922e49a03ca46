//! The typed payload registry: maps an envelope's kind and target to a
//! decoded message, following the wire convention that the payload
//! document sits at a fixed argument position.

use vstd::prelude::*;

use crate::SessionError;
use crate::envelope::{EnvelopeView, SocketMessage, SocketMessageTarget, SocketMessageType};
use crate::json::parse_json;
use crate::payload::{
    CommunicationChannels, CommunicationChannelsView, SubscriptionStatus, SubscriptionStatusView,
    communication_channels_from_json, communication_channels_of_text,
    subscription_status_from_json, subscription_status_of_text,
};

verus! {

/// The fixed position of the payload document among an invocation's
/// arguments; the position before it carries an unused event-name
/// discriminator.
pub const PAYLOAD_ARG_INDEX: usize = 1;

/// One request the client can send.
#[derive(Clone, Copy, Debug, PartialEq, Eq, Structural)]
pub enum MessageRequest {
    Ping,
}

/// One decoded message received from the server.
#[derive(Clone, Debug, PartialEq, Eq)]
pub enum MessageResponse {
    Ping,
    SubscriptionStatus(SubscriptionStatus),
    CommunicationChannels(CommunicationChannels),
}

/// The mathematical shape of a decoded message.
pub enum MessageResponseView {
    Ping,
    SubscriptionStatus(SubscriptionStatusView),
    CommunicationChannels(CommunicationChannelsView),
}

impl DeepView for MessageResponse {
    type V = MessageResponseView;

    open spec fn deep_view(&self) -> MessageResponseView {
        self.view()
    }
}

impl View for MessageResponse {
    type V = MessageResponseView;

    open spec fn view(&self) -> MessageResponseView {
        match self {
            MessageResponse::Ping => MessageResponseView::Ping,
            MessageResponse::SubscriptionStatus(p) => MessageResponseView::SubscriptionStatus(p@),
            MessageResponse::CommunicationChannels(p) => MessageResponseView::CommunicationChannels(
                p@,
            ),
        }
    }
}

/// What one envelope dispatches to: a ping yields the ping message; an
/// invocation with a known target decodes the payload argument; an
/// invocation without a target — absent on the wire, or naming an event
/// the client does not recognize — yields nothing, by design; an
/// invocation with a known target but no payload argument is a decode
/// failure.
pub open spec fn resolve_spec(m: EnvelopeView) -> Result<Option<MessageResponseView>, SessionError,
> {
    match m.kind {
        SocketMessageType::Ping => Ok(Some(MessageResponseView::Ping)),
        SocketMessageType::Invocation => match m.target {
            None => Ok(None),
            Some(t) => match m.arguments {
                None => Err(SessionError::Decode),
                Some(args) => {
                    if args.len() <= PAYLOAD_ARG_INDEX as int {
                        Err(SessionError::Decode)
                    } else {
                        let payload = args[PAYLOAD_ARG_INDEX as int];
                        match t {
                            SocketMessageTarget::SubscriptionStatus => match
                                subscription_status_of_text(payload) {
                                Ok(p) => Ok(Some(MessageResponseView::SubscriptionStatus(p))),
                                Err(e) => Err(e),
                            },
                            SocketMessageTarget::CommunicationChannels => match
                                communication_channels_of_text(payload) {
                                Ok(p) => Ok(Some(MessageResponseView::CommunicationChannels(p))),
                                Err(e) => Err(e),
                            },
                        }
                    }
                },
            },
        },
    }
}

/// Dispatches one envelope, as [`resolve_spec`] says.
pub fn resolve(m: &SocketMessage) -> (r: Result<Option<MessageResponse>, SessionError>)
    ensures
        match r {
            Ok(Some(x)) => resolve_spec(m@) == Ok::<_, SessionError>(Some(x@)),
            Ok(None) => resolve_spec(m@) == Ok::<Option<MessageResponseView>, SessionError>(None),
            Err(e) => resolve_spec(m@) == Err::<Option<MessageResponseView>, _>(e),
        },
{
    match m.kind {
        SocketMessageType::Ping => Ok(Some(MessageResponse::Ping)),
        SocketMessageType::Invocation => {
            let t = match m.target {
                None => {
                    return Ok(None);
                },
                Some(t) => t,
            };
            let args = match &m.arguments {
                None => {
                    return Err(SessionError::Decode);
                },
                Some(args) => args,
            };
            if args.len() <= PAYLOAD_ARG_INDEX {
                return Err(SessionError::Decode);
            }
            let payload = &args[PAYLOAD_ARG_INDEX];
            proof {
                assert(m@.arguments->0[PAYLOAD_ARG_INDEX as int] == payload@);
            }
            let doc = match parse_json(payload.as_str()) {
                Some(doc) => doc,
                None => {
                    return Err(SessionError::Parse);
                },
            };
            match t {
                SocketMessageTarget::SubscriptionStatus => {
                    match subscription_status_from_json(&doc) {
                        Ok(p) => Ok(Some(MessageResponse::SubscriptionStatus(p))),
                        Err(e) => Err(e),
                    }
                },
                SocketMessageTarget::CommunicationChannels => {
                    match communication_channels_from_json(&doc) {
                        Ok(p) => Ok(Some(MessageResponse::CommunicationChannels(p))),
                        Err(e) => Err(e),
                    }
                },
            }
        },
    }
}

} // verus!
