//! Session registry, signaling decisions and media relay decisions of a
//! WebRTC reverse-proxy plugin that runs inside a media gateway.
//!
//! The host's callback table, its JSON values and its SDP engine stay with the
//! host glue; this library decides what each callback does and proves it.
mod error;
mod registry;
mod relay;
mod session;
mod signaling;

pub use error::ProxyError;
pub use registry::{ProxyPluginState, RegistryOp, SessionSnapshot};
pub use relay::RelayDecision;
pub use session::{ProxySession, SessionEvent, SessionState};
pub use signaling::{
    check_push_result, answer_jsep, InboundJsep, JsepType, JsonKind, NegotiationPolicy,
    OutboundJsep, ProxyMessage, Signal,
};
