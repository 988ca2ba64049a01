use crate::error::ProxyError;
use crate::registry::{event_error, registry_apply, ProxyPluginState};
use crate::session::{ProxySession, SessionEvent};
use vstd::prelude::*;

verus! {

/// What to do with one incoming packet.
#[derive(Clone, Copy, Debug, PartialEq, Eq, Structural)]
pub enum RelayDecision {
    /// Hand the buffer and its length unchanged to the host's relay entry point.
    Forward,
    /// Drop the packet; the reason is for the log only and never reaches the host.
    Drop(ProxyError),
}

/// The decision on a packet for `handle`.
pub open spec fn relay_decision(s: Seq<ProxySession>, bridge_ready: bool, handle: u64) -> RelayDecision {
    if !bridge_ready {
        RelayDecision::Drop(ProxyError::BridgeNotInitialized)
    } else {
        match event_error(s, handle) {
            Some(e) => RelayDecision::Drop(e),
            None => RelayDecision::Forward,
        }
    }
}

/// The registry after a packet for `handle`: only a relayed packet changes a session.
pub open spec fn relay_registry(s: Seq<ProxySession>, bridge_ready: bool, handle: u64) -> Seq<
    ProxySession,
> {
    if bridge_ready {
        registry_apply(s, handle, SessionEvent::Packet)
    } else {
        s
    }
}

impl ProxyPluginState {
    /// Installs the host's callback table. Fails with `BridgeNotInitialized`,
    /// and changes nothing, when the table or the configuration path is missing.
    pub fn init(&mut self, callbacks_present: bool, config_present: bool) -> (r: Result<
        (),
        ProxyError,
    >)
        requires
            old(self).wf(),
        ensures
            final(self).wf(),
            final(self)@ == old(self)@,
            final(self).bridge_ready == (old(self).bridge_ready || (callbacks_present
                && config_present)),
            r == (if callbacks_present && config_present {
                Ok::<(), ProxyError>(())
            } else {
                Err(ProxyError::BridgeNotInitialized)
            }),
    {
        if callbacks_present && config_present {
            self.bridge_ready = true;
            Ok(())
        } else {
            Err(ProxyError::BridgeNotInitialized)
        }
    }

    /// Succeeds only once the host's callback table is installed.
    pub fn require_bridge(&self) -> (r: Result<(), ProxyError>)
        ensures
            r == (if self.bridge_ready {
                Ok::<(), ProxyError>(())
            } else {
                Err(ProxyError::BridgeNotInitialized)
            }),
    {
        if self.bridge_ready {
            Ok(())
        } else {
            Err(ProxyError::BridgeNotInitialized)
        }
    }

    fn relay_packet(&mut self, handle: u64) -> (r: RelayDecision)
        requires
            old(self).wf(),
        ensures
            final(self).wf(),
            final(self).bridge_ready == old(self).bridge_ready,
            final(self)@ == relay_registry(old(self)@, old(self).bridge_ready, handle),
            r == relay_decision(old(self)@, old(self).bridge_ready, handle),
    {
        if let Err(e) = self.require_bridge() {
            return RelayDecision::Drop(e);
        }
        match self.update_session(handle, SessionEvent::Packet) {
            Ok(()) => RelayDecision::Forward,
            Err(e) => RelayDecision::Drop(e),
        }
    }

    /// An RTP packet arrived for `handle`; the first one relayed makes a
    /// session in media setup active.
    pub fn incoming_rtp(&mut self, handle: u64) -> (r: RelayDecision)
        requires
            old(self).wf(),
        ensures
            final(self).wf(),
            final(self).bridge_ready == old(self).bridge_ready,
            final(self)@ == relay_registry(old(self)@, old(self).bridge_ready, handle),
            r == relay_decision(old(self)@, old(self).bridge_ready, handle),
    {
        self.relay_packet(handle)
    }

    /// An RTCP packet arrived for `handle`.
    pub fn incoming_rtcp(&mut self, handle: u64) -> (r: RelayDecision)
        requires
            old(self).wf(),
        ensures
            final(self).wf(),
            final(self).bridge_ready == old(self).bridge_ready,
            final(self)@ == relay_registry(old(self)@, old(self).bridge_ready, handle),
            r == relay_decision(old(self)@, old(self).bridge_ready, handle),
    {
        self.relay_packet(handle)
    }

    /// A data-channel packet arrived for `handle`.
    pub fn incoming_data(&mut self, handle: u64) -> (r: RelayDecision)
        requires
            old(self).wf(),
        ensures
            final(self).wf(),
            final(self).bridge_ready == old(self).bridge_ready,
            final(self)@ == relay_registry(old(self)@, old(self).bridge_ready, handle),
            r == relay_decision(old(self)@, old(self).bridge_ready, handle),
    {
        self.relay_packet(handle)
    }
}

} // verus!
