use retproxy::{
    answer_jsep, check_push_result, InboundJsep, JsepType, JsonKind, NegotiationPolicy,
    OutboundJsep, ProxyError, ProxyPluginState, Signal,
};

fn ready_with(handle: u64) -> ProxyPluginState {
    let mut st = ProxyPluginState::new();
    assert_eq!(st.init(true, true), Ok(()));
    assert_eq!(st.create_session(handle), Ok(()));
    st
}

fn object_jsep(sdp: Option<&str>) -> Option<InboundJsep> {
    Some(InboundJsep { kind: JsonKind::Object, sdp: sdp.map(|s| s.to_string()) })
}

#[test]
fn message_for_unknown_session_fails() {
    let st = ready_with(1);
    assert_eq!(
        st.handle_message(2, Some(JsonKind::Object), None),
        Err(ProxyError::SessionNotFound)
    );
}

#[test]
fn message_for_destroyed_session_fails() {
    let mut st = ready_with(1);
    assert_eq!(st.destroy_session(1), Ok(()));
    assert_eq!(
        st.handle_message(1, Some(JsonKind::Object), None),
        Err(ProxyError::SessionDestroyed)
    );
}

#[test]
fn non_object_message_fails() {
    let st = ready_with(1);
    assert_eq!(
        st.handle_message(1, Some(JsonKind::Array), None),
        Err(ProxyError::MalformedMessage)
    );
    assert_eq!(
        st.handle_message(1, None, object_jsep(Some("v=0"))),
        Err(ProxyError::MalformedMessage)
    );
}

#[test]
fn message_without_jsep_is_acknowledged() {
    let st = ready_with(1);
    assert_eq!(
        st.handle_message(1, Some(JsonKind::Object), None),
        Ok(Signal::Acknowledge)
    );
}

#[test]
fn non_object_jsep_fails() {
    let st = ready_with(1);
    let jsep = Some(InboundJsep { kind: JsonKind::Text, sdp: None });
    assert_eq!(
        st.handle_message(1, Some(JsonKind::Object), jsep),
        Err(ProxyError::MalformedJsep)
    );
}

#[test]
fn jsep_without_sdp_is_acknowledged() {
    let st = ready_with(1);
    assert_eq!(
        st.handle_message(1, Some(JsonKind::Object), object_jsep(None)),
        Ok(Signal::AcknowledgeWithoutAnswer)
    );
}

#[test]
fn offer_is_handed_on_for_negotiation() {
    let st = ready_with(1);
    let offer = "v=0\r\nm=video 9 UDP/TLS/RTP/SAVPF 96\r\n";
    assert_eq!(
        st.handle_message(1, Some(JsonKind::Object), object_jsep(Some(offer))),
        Ok(Signal::Negotiate { offer: offer.to_string(), policy: NegotiationPolicy::VideoOnly })
    );
}

#[test]
fn message_before_bridge_fails() {
    let mut st = ProxyPluginState::new();
    assert_eq!(st.create_session(1), Ok(()));
    assert_eq!(
        st.handle_message(1, Some(JsonKind::Object), None),
        Err(ProxyError::BridgeNotInitialized)
    );
}

#[test]
fn answer_is_wrapped_as_answer_jsep() {
    let answer = "v=0\r\nm=video 9 UDP/TLS/RTP/SAVPF 96\r\n".to_string();
    let j = answer_jsep(Some(answer.clone())).unwrap();
    assert_eq!(j, OutboundJsep { jsep_type: JsepType::Answer, sdp: answer });
    assert_eq!(j.jsep_type.as_str(), "answer");
    assert_eq!(JsepType::Offer.as_str(), "offer");
}

#[test]
fn failed_negotiation_is_recoverable() {
    assert_eq!(answer_jsep(None), Err(ProxyError::SdpNegotiationFailure));
}

#[test]
fn push_result_codes() {
    assert_eq!(check_push_result(0), Ok(()));
    assert_eq!(check_push_result(-1), Err(ProxyError::HostRelayFailure));
    assert_eq!(check_push_result(458), Err(ProxyError::HostRelayFailure));
}

#[test]
fn error_messages() {
    assert_eq!(
        ProxyError::SessionNotFound.message(),
        "no session associated with handle"
    );
    assert_eq!(ProxyError::MalformedJsep.message(), "JSEP wasn't a JSON object");
    assert_eq!(
        ProxyError::BridgeNotInitialized.message(),
        "gateway callbacks not initialized"
    );
}
