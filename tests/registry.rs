use retproxy::{ProxyError, ProxyPluginState, SessionSnapshot, SessionState};

fn ready_state() -> ProxyPluginState {
    let mut st = ProxyPluginState::new();
    assert_eq!(st.init(true, true), Ok(()));
    st
}

#[test]
fn live_count_follows_creates_and_destroys() {
    let mut st = ProxyPluginState::new();
    assert_eq!(st.live_session_count(), 0);
    for h in 1..=4u64 {
        assert_eq!(st.create_session(h), Ok(()));
    }
    assert_eq!(st.live_session_count(), 4);
    assert_eq!(st.destroy_session(2), Ok(()));
    assert_eq!(st.live_session_count(), 3);
    assert_eq!(st.create_session(5), Ok(()));
    assert_eq!(st.destroy_session(4), Ok(()));
    assert_eq!(st.destroy_session(1), Ok(()));
    assert_eq!(st.live_session_count(), 2);
}

#[test]
fn duplicate_create_is_refused() {
    let mut st = ProxyPluginState::new();
    assert_eq!(st.create_session(9), Ok(()));
    assert_eq!(st.create_session(9), Err(ProxyError::DuplicateSession));
    assert_eq!(st.live_session_count(), 1);
    assert_eq!(st.destroy_session(9), Ok(()));
    assert_eq!(st.create_session(9), Err(ProxyError::DuplicateSession));
}

#[test]
fn destroy_unknown_leaves_registry_unchanged() {
    let mut st = ProxyPluginState::new();
    assert_eq!(st.create_session(1), Ok(()));
    let before = st.sessions.clone();
    assert_eq!(st.destroy_session(77), Err(ProxyError::SessionNotFound));
    assert_eq!(st.sessions, before);
    assert_eq!(st.live_session_count(), 1);
}

#[test]
fn destroy_twice_is_reported_distinctly() {
    let mut st = ProxyPluginState::new();
    assert_eq!(st.create_session(3), Ok(()));
    assert_eq!(st.destroy_session(3), Ok(()));
    assert_eq!(st.destroy_session(3), Err(ProxyError::SessionDestroyed));
}

#[test]
fn three_slow_links_give_count_three() {
    let mut st = ready_state();
    assert_eq!(st.create_session(1), Ok(()));
    assert_eq!(st.slow_link(1), Ok(()));
    assert_eq!(st.setup_media(1), Ok(()));
    assert_eq!(st.slow_link(1), Ok(()));
    assert_eq!(st.incoming_rtp(1), retproxy::RelayDecision::Forward);
    assert_eq!(st.hangup_media(1), Ok(()));
    assert_eq!(st.slow_link(1), Ok(()));
    assert_eq!(
        st.query_session(1),
        Ok(SessionSnapshot { bitrate: 0, slowlink_count: 3, destroyed: 0 })
    );
}

#[test]
fn slow_link_saturates_at_maximum() {
    let mut st = ProxyPluginState::new();
    assert_eq!(st.create_session(1), Ok(()));
    st.sessions[0].slowlink_count = u16::MAX - 1;
    assert_eq!(st.slow_link(1), Ok(()));
    assert_eq!(st.slow_link(1), Ok(()));
    assert_eq!(st.query_session(1).unwrap().slowlink_count, u16::MAX);
}

#[test]
fn slow_link_on_destroyed_or_unknown_fails() {
    let mut st = ProxyPluginState::new();
    assert_eq!(st.slow_link(5), Err(ProxyError::SessionNotFound));
    assert_eq!(st.create_session(5), Ok(()));
    assert_eq!(st.destroy_session(5), Ok(()));
    assert_eq!(st.slow_link(5), Err(ProxyError::SessionDestroyed));
    assert_eq!(st.query_session(5).unwrap().slowlink_count, 0);
}

#[test]
fn trace_create_query_destroy_relay() {
    let mut st = ready_state();
    assert_eq!(st.create_session(1), Ok(()));
    assert_eq!(
        st.query_session(1),
        Ok(SessionSnapshot { bitrate: 0, slowlink_count: 0, destroyed: 0 })
    );
    assert_eq!(st.destroy_session(1), Ok(()));
    assert_eq!(
        st.query_session(1),
        Ok(SessionSnapshot { bitrate: 0, slowlink_count: 0, destroyed: 1 })
    );
    assert_eq!(
        st.incoming_rtp(1),
        retproxy::RelayDecision::Drop(ProxyError::SessionDestroyed)
    );
}

#[test]
fn query_unknown_fails() {
    let st = ProxyPluginState::new();
    assert_eq!(st.query_session(4), Err(ProxyError::SessionNotFound));
    assert_eq!(st.lookup(4), Err(ProxyError::SessionNotFound));
}

#[test]
fn lifecycle_transitions() {
    let mut st = ready_state();
    assert_eq!(st.create_session(8), Ok(()));
    assert_eq!(st.lookup(8).unwrap().state, SessionState::Created);
    assert_eq!(st.hangup_media(8), Ok(()));
    assert_eq!(st.lookup(8).unwrap().state, SessionState::Created);
    assert_eq!(st.setup_media(8), Ok(()));
    assert_eq!(st.lookup(8).unwrap().state, SessionState::MediaSetup);
    assert_eq!(st.incoming_rtcp(8), retproxy::RelayDecision::Forward);
    assert_eq!(st.lookup(8).unwrap().state, SessionState::Active);
    assert_eq!(st.hangup_media(8), Ok(()));
    let s = st.lookup(8).unwrap();
    assert_eq!(s.state, SessionState::HangingUp);
    assert!(s.hanging_up);
    assert_eq!(st.setup_media(8), Ok(()));
    let s = st.lookup(8).unwrap();
    assert_eq!(s.state, SessionState::MediaSetup);
    assert!(!s.hanging_up);
    assert_eq!(st.destroy_session(8), Ok(()));
    let s = st.lookup(8).unwrap();
    assert_eq!(s.state, SessionState::Destroyed);
    assert!(s.destroyed);
    assert_eq!(st.setup_media(8), Err(ProxyError::SessionDestroyed));
    assert_eq!(st.hangup_media(8), Err(ProxyError::SessionDestroyed));
    assert_eq!(st.lookup(8).unwrap().state, SessionState::Destroyed);
}

#[test]
fn fresh_session_is_zeroed() {
    let mut st = ProxyPluginState::new();
    assert_eq!(st.create_session(2), Ok(()));
    let s = st.lookup(2).unwrap();
    assert_eq!(s.handle, 2);
    assert!(!s.has_audio && !s.has_data && !s.hanging_up && !s.destroyed);
    assert_eq!(s.bitrate, 0);
    assert_eq!(s.slowlink_count, 0);
}
