use vstd::prelude::*;

verus! {

/// Every way in which a callback of the plugin can fail.
#[derive(Clone, Copy, Debug, PartialEq, Eq, Structural)]
pub enum ProxyError {
    /// The host's callback table was not installed before it was needed.
    BridgeNotInitialized,
    /// No session is registered under the given handle.
    SessionNotFound,
    /// The session exists but was already destroyed.
    SessionDestroyed,
    /// A session is already registered under the given handle.
    DuplicateSession,
    /// The signaling message is missing or is not a JSON object.
    MalformedMessage,
    /// The JSEP value is not a JSON object.
    MalformedJsep,
    /// The SDP offer could not be parsed or answered.
    SdpNegotiationFailure,
    /// The host's notify entry point reported a failure.
    HostRelayFailure,
}

/// The human-readable text that goes with each error kind.
pub open spec fn error_text(e: ProxyError) -> Seq<char> {
    match e {
        ProxyError::BridgeNotInitialized => "gateway callbacks not initialized"@,
        ProxyError::SessionNotFound => "no session associated with handle"@,
        ProxyError::SessionDestroyed => "session already destroyed"@,
        ProxyError::DuplicateSession => "session already exists for handle"@,
        ProxyError::MalformedMessage => "message wasn't a JSON object"@,
        ProxyError::MalformedJsep => "JSEP wasn't a JSON object"@,
        ProxyError::SdpNegotiationFailure => "SDP offer could not be negotiated"@,
        ProxyError::HostRelayFailure => "gateway failed to push event"@,
    }
}

impl ProxyError {
    /// The message reported to the host together with this error.
    pub fn message(&self) -> (r: &'static str)
        ensures
            r@ == error_text(*self),
    {
        match self {
            ProxyError::BridgeNotInitialized => "gateway callbacks not initialized",
            ProxyError::SessionNotFound => "no session associated with handle",
            ProxyError::SessionDestroyed => "session already destroyed",
            ProxyError::DuplicateSession => "session already exists for handle",
            ProxyError::MalformedMessage => "message wasn't a JSON object",
            ProxyError::MalformedJsep => "JSEP wasn't a JSON object",
            ProxyError::SdpNegotiationFailure => "SDP offer could not be negotiated",
            ProxyError::HostRelayFailure => "gateway failed to push event",
        }
    }
}

} // verus!
