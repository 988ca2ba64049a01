use crate::error::ProxyError;
use crate::registry::{event_error, index_of, ProxyPluginState};
use crate::session::ProxySession;
use vstd::prelude::*;

verus! {

/// The type of a JSON value handed over by the host.
#[derive(Clone, Copy, Debug, PartialEq, Eq, Structural)]
pub enum JsonKind {
    Object,
    Array,
    Text,
    Integer,
    Real,
    Boolean,
    Null,
}

/// The JSEP value of an inbound message: its JSON type and, where it is an
/// object with a string `sdp` field, that field.
#[derive(Clone, Debug, PartialEq, Eq)]
pub struct InboundJsep {
    pub kind: JsonKind,
    pub sdp: Option<String>,
}

/// How an offer is answered. Audio and data are not negotiated: only the
/// first video media section is accepted and the rest is rejected.
#[derive(Clone, Copy, Debug, PartialEq, Eq, Structural)]
pub enum NegotiationPolicy {
    VideoOnly,
}

/// The `type` field of a JSEP value.
#[derive(Clone, Copy, Debug, PartialEq, Eq, Structural)]
pub enum JsepType {
    Offer,
    Answer,
}

/// The text of a JSEP `type` field.
pub open spec fn jsep_type_text(t: JsepType) -> Seq<char> {
    match t {
        JsepType::Offer => "offer"@,
        JsepType::Answer => "answer"@,
    }
}

impl JsepType {
    /// The text of this `type` field.
    pub fn as_str(&self) -> (r: &'static str)
        ensures
            r@ == jsep_type_text(*self),
    {
        match self {
            JsepType::Offer => "offer",
            JsepType::Answer => "answer",
        }
    }
}

/// The JSEP value sent back to the peer: `{"type": .., "sdp": ..}`.
#[derive(Clone, Debug, PartialEq, Eq)]
pub struct OutboundJsep {
    pub jsep_type: JsepType,
    pub sdp: String,
}

/// A signaling message received for a session, with the host's transaction id.
#[derive(Clone, Debug)]
pub struct ProxyMessage {
    pub session: ProxySession,
    pub transaction: String,
}

/// What the host glue must do after a signaling message was accepted.
#[derive(Clone, Debug, PartialEq, Eq)]
pub enum Signal {
    /// No JSEP came: push one empty event, with no JSEP.
    Acknowledge,
    /// A JSEP object without an `sdp` string came: push one empty event, with
    /// no JSEP. Whether this is meant as a keep-alive is an open question.
    AcknowledgeWithoutAnswer,
    /// Answer this offer under the policy, then push an empty event with the
    /// JSEP that `answer_jsep` builds.
    Negotiate { offer: String, policy: NegotiationPolicy },
}

/// The outcome of a signaling message, in the order the checks are made:
/// session, message, JSEP, bridge.
pub open spec fn signal_result(
    s: Seq<ProxySession>,
    bridge_ready: bool,
    handle: u64,
    message: Option<JsonKind>,
    jsep: Option<InboundJsep>,
) -> Result<Signal, ProxyError> {
    if event_error(s, handle) is Some {
        Err(event_error(s, handle)->0)
    } else if message != Some(JsonKind::Object) {
        Err(ProxyError::MalformedMessage)
    } else if jsep is Some && jsep->0.kind != JsonKind::Object {
        Err(ProxyError::MalformedJsep)
    } else if !bridge_ready {
        Err(ProxyError::BridgeNotInitialized)
    } else {
        match jsep {
            None => Ok(Signal::Acknowledge),
            Some(j) => match j.sdp {
                None => Ok(Signal::AcknowledgeWithoutAnswer),
                Some(offer) => Ok(Signal::Negotiate { offer, policy: NegotiationPolicy::VideoOnly }),
            },
        }
    }
}

/// A message for a handle that resolves to no session fails with
/// `SessionNotFound`; one on a live session whose body is missing or not an
/// object fails with `MalformedMessage`; a valid one without JSEP, once the
/// bridge is up, succeeds with a single empty acknowledgement and no SDP work.
pub proof fn lemma_message_outcomes(
    s: Seq<ProxySession>,
    bridge_ready: bool,
    handle: u64,
    message: Option<JsonKind>,
    jsep: Option<InboundJsep>,
)
    ensures
        index_of(s, handle) < 0 ==> signal_result(s, bridge_ready, handle, message, jsep) == Err::<
            Signal,
            ProxyError,
        >(ProxyError::SessionNotFound),
        event_error(s, handle) is None && message != Some(JsonKind::Object) ==> signal_result(
            s,
            bridge_ready,
            handle,
            message,
            jsep,
        ) == Err::<Signal, ProxyError>(ProxyError::MalformedMessage),
        event_error(s, handle) is None && message == Some(JsonKind::Object) && jsep is None
            && bridge_ready ==> signal_result(s, bridge_ready, handle, message, jsep) == Ok::<
            Signal,
            ProxyError,
        >(Signal::Acknowledge),
{
}

impl ProxyPluginState {
    /// Validates a signaling message for the session under `handle` and says
    /// what to push back. `message` is the JSON type of the message body, if
    /// one came. The registry is not changed.
    pub fn handle_message(
        &self,
        handle: u64,
        message: Option<JsonKind>,
        jsep: Option<InboundJsep>,
    ) -> (r: Result<Signal, ProxyError>)
        ensures
            r == signal_result(self@, self.bridge_ready, handle, message, jsep),
    {
        match self.lookup(handle) {
            Err(e) => {
                return Err(e);
            },
            Ok(s) => {
                if s.destroyed {
                    return Err(ProxyError::SessionDestroyed);
                }
            },
        }
        match message {
            Some(JsonKind::Object) => {},
            _ => {
                return Err(ProxyError::MalformedMessage);
            },
        }
        if let Some(j) = &jsep {
            if j.kind != JsonKind::Object {
                return Err(ProxyError::MalformedJsep);
            }
        }
        if let Err(e) = self.require_bridge() {
            return Err(e);
        }
        match jsep {
            None => Ok(Signal::Acknowledge),
            Some(j) => match j.sdp {
                None => Ok(Signal::AcknowledgeWithoutAnswer),
                Some(offer) => Ok(Signal::Negotiate { offer, policy: NegotiationPolicy::VideoOnly }),
            },
        }
    }
}

/// The JSEP to push once an offer was answered: `answer` is the answer SDP,
/// or `None` when the offer could not be parsed or answered, which fails with
/// `SdpNegotiationFailure`.
pub fn answer_jsep(answer: Option<String>) -> (r: Result<OutboundJsep, ProxyError>)
    ensures
        r == (match answer {
            None => Err(ProxyError::SdpNegotiationFailure),
            Some(a) => Ok(OutboundJsep { jsep_type: JsepType::Answer, sdp: a }),
        }),
        r is Ok ==> jsep_type_text(r->Ok_0.jsep_type) == "answer"@,
{
    match answer {
        None => Err(ProxyError::SdpNegotiationFailure),
        Some(a) => Ok(OutboundJsep { jsep_type: JsepType::Answer, sdp: a }),
    }
}

/// Maps the result code of the host's push-event entry point: zero is
/// success, anything else fails with `HostRelayFailure`.
pub fn check_push_result(code: i32) -> (r: Result<(), ProxyError>)
    ensures
        r == (if code == 0 {
            Ok::<(), ProxyError>(())
        } else {
            Err(ProxyError::HostRelayFailure)
        }),
{
    if code == 0 {
        Ok(())
    } else {
        Err(ProxyError::HostRelayFailure)
    }
}

} // verus!
