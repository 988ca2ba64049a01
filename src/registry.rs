use crate::error::ProxyError;
use crate::session::{fresh_session, session_step, ProxySession, SessionEvent};
use vstd::prelude::*;

verus! {

/// The registry of sessions, in creation order, and whether the host's
/// callback table has been installed.
pub struct ProxyPluginState {
    /// The registered sessions, in creation order.
    pub sessions: Vec<ProxySession>,
    /// Whether the gateway bridge was initialized at start-up.
    pub bridge_ready: bool,
}

/// The read-only view of a session that the host can query, even after destroy.
#[derive(Clone, Copy, Debug, PartialEq, Eq, Structural)]
pub struct SessionSnapshot {
    pub bitrate: u32,
    pub slowlink_count: u16,
    /// 1 once the session is destroyed, else 0.
    pub destroyed: i64,
}

/// A lifecycle request on the registry.
#[derive(Clone, Copy, Debug, PartialEq, Eq, Structural)]
pub enum RegistryOp {
    Create(u64),
    Destroy(u64),
}

/// The position of the session registered under `handle`, or -1.
pub open spec fn index_of(s: Seq<ProxySession>, handle: u64) -> int
    decreases s.len(),
{
    if s.len() == 0 {
        -1
    } else if s.last().handle == handle {
        s.len() - 1
    } else {
        index_of(s.drop_last(), handle)
    }
}

/// No two sessions share a handle.
pub open spec fn handles_unique(s: Seq<ProxySession>) -> bool {
    forall|i: int, j: int| 0 <= i < j < s.len() ==> s[i].handle != s[j].handle
}

/// How many registered sessions are not destroyed.
pub open spec fn live_count(s: Seq<ProxySession>) -> nat
    decreases s.len(),
{
    if s.len() == 0 {
        0
    } else {
        live_count(s.drop_last()) + if s.last().destroyed {
            0nat
        } else {
            1nat
        }
    }
}

/// The snapshot that a query reports of a session.
pub open spec fn snapshot_of(s: ProxySession) -> SessionSnapshot {
    SessionSnapshot {
        bitrate: s.bitrate,
        slowlink_count: s.slowlink_count,
        destroyed: if s.destroyed {
            1
        } else {
            0
        },
    }
}

/// Why an event on `handle` is refused, if it is.
pub open spec fn event_error(s: Seq<ProxySession>, handle: u64) -> Option<ProxyError> {
    let i = index_of(s, handle);
    if i < 0 {
        Some(ProxyError::SessionNotFound)
    } else if s[i].destroyed {
        Some(ProxyError::SessionDestroyed)
    } else {
        None
    }
}

/// The result that an event on `handle` reports.
pub open spec fn event_result(s: Seq<ProxySession>, handle: u64) -> Result<(), ProxyError> {
    match event_error(s, handle) {
        Some(e) => Err(e),
        None => Ok(()),
    }
}

/// The registry after an event on `handle`: the session registered there, if
/// any, takes the step.
pub open spec fn registry_apply(s: Seq<ProxySession>, handle: u64, e: SessionEvent) -> Seq<
    ProxySession,
> {
    let i = index_of(s, handle);
    if i < 0 {
        s
    } else {
        s.update(i, session_step(s[i], e))
    }
}

/// Whether a lifecycle request is accepted on the registry `s`.
pub open spec fn op_accepted(s: Seq<ProxySession>, op: RegistryOp) -> bool {
    match op {
        RegistryOp::Create(h) => index_of(s, h) < 0,
        RegistryOp::Destroy(h) => event_error(s, h).is_none(),
    }
}

/// The registry after one lifecycle request; a refused request changes nothing.
pub open spec fn registry_step(s: Seq<ProxySession>, op: RegistryOp) -> Seq<ProxySession> {
    match op {
        RegistryOp::Create(h) => if index_of(s, h) < 0 {
            s.push(fresh_session(h))
        } else {
            s
        },
        RegistryOp::Destroy(h) => registry_apply(s, h, SessionEvent::Destroy),
    }
}

/// The registry after a sequence of lifecycle requests, applied in order.
pub open spec fn run_ops(s: Seq<ProxySession>, ops: Seq<RegistryOp>) -> Seq<ProxySession>
    decreases ops.len(),
{
    if ops.len() == 0 {
        s
    } else {
        registry_step(run_ops(s, ops.drop_last()), ops.last())
    }
}

/// Accepted creates minus accepted destroys over a sequence of requests.
pub open spec fn net_created(s: Seq<ProxySession>, ops: Seq<RegistryOp>) -> int
    decreases ops.len(),
{
    if ops.len() == 0 {
        0
    } else {
        let before = run_ops(s, ops.drop_last());
        net_created(s, ops.drop_last()) + if !op_accepted(before, ops.last()) {
            0int
        } else if ops.last() is Create {
            1int
        } else {
            -1int
        }
    }
}

/// A handle that `index_of` does not find is on no session.
proof fn lemma_index_of(s: Seq<ProxySession>, handle: u64)
    ensures
        index_of(s, handle) < 0 ==> forall|k: int| 0 <= k < s.len() ==> s[k].handle != handle,
        index_of(s, handle) >= 0 ==> index_of(s, handle) < s.len() && s[index_of(
            s,
            handle,
        )].handle == handle,
    decreases s.len(),
{
    if s.len() > 0 {
        lemma_index_of(s.drop_last(), handle);
        assert forall|k: int| 0 <= k < s.len() - 1 implies s.drop_last()[k] == s[k] by {}
    }
}

/// Changing one session changes the live count by what that session's
/// liveness changed.
proof fn lemma_live_count_update(s: Seq<ProxySession>, i: int, v: ProxySession)
    requires
        0 <= i < s.len(),
    ensures
        live_count(s.update(i, v)) + (if s[i].destroyed {
            0int
        } else {
            1int
        }) == live_count(s) + (if v.destroyed {
            0int
        } else {
            1int
        }),
    decreases s.len(),
{
    let t = s.update(i, v);
    if i == s.len() - 1 {
        assert(t.drop_last() =~= s.drop_last());
    } else {
        lemma_live_count_update(s.drop_last(), i, v);
        assert(t.drop_last() =~= s.drop_last().update(i, v));
    }
}

/// Each accepted create raises the number of live sessions by one and each
/// accepted destroy lowers it by one; refused requests leave it unchanged.
pub proof fn lemma_live_count_trace(s: Seq<ProxySession>, ops: Seq<RegistryOp>)
    ensures
        live_count(run_ops(s, ops)) == live_count(s) + net_created(s, ops),
    decreases ops.len(),
{
    if ops.len() > 0 {
        let before = run_ops(s, ops.drop_last());
        lemma_live_count_trace(s, ops.drop_last());
        match ops.last() {
            RegistryOp::Create(h) => {
                if index_of(before, h) < 0 {
                    assert(before.push(fresh_session(h)).drop_last() =~= before);
                }
            },
            RegistryOp::Destroy(h) => {
                let i = index_of(before, h);
                lemma_index_of(before, h);
                if i >= 0 {
                    lemma_live_count_update(before, i, session_step(before[i], SessionEvent::Destroy));
                }
            },
        }
    }
}

/// The number of creates minus the number of destroys in a sequence of requests.
pub open spec fn creates_minus_destroys(ops: Seq<RegistryOp>) -> int
    decreases ops.len(),
{
    if ops.len() == 0 {
        0
    } else {
        creates_minus_destroys(ops.drop_last()) + if ops.last() is Create {
            1int
        } else {
            -1int
        }
    }
}

/// Every request of the sequence is accepted where it stands: each create is
/// on a handle not yet registered and each destroy on a live session.
pub open spec fn all_accepted(s: Seq<ProxySession>, ops: Seq<RegistryOp>) -> bool {
    forall|k: int| 0 <= k < ops.len() ==> op_accepted(run_ops(s, #[trigger] ops.take(k)), ops[k])
}

/// For a sequence of creates on fresh handles and destroys of live sessions,
/// the live count is the initial one plus the creates minus the destroys.
pub proof fn lemma_live_count_accepted(s: Seq<ProxySession>, ops: Seq<RegistryOp>)
    requires
        all_accepted(s, ops),
    ensures
        live_count(run_ops(s, ops)) == live_count(s) + creates_minus_destroys(ops),
{
    lemma_live_count_trace(s, ops);
    lemma_net_created_accepted(s, ops);
}

proof fn lemma_net_created_accepted(s: Seq<ProxySession>, ops: Seq<RegistryOp>)
    requires
        all_accepted(s, ops),
    ensures
        net_created(s, ops) == creates_minus_destroys(ops),
    decreases ops.len(),
{
    if ops.len() > 0 {
        let init = ops.drop_last();
        assert forall|k: int| 0 <= k < init.len() implies op_accepted(
            run_ops(s, #[trigger] init.take(k)),
            init[k],
        ) by {
            assert(init.take(k) =~= ops.take(k));
            assert(op_accepted(run_ops(s, ops.take(k)), ops[k]));
        }
        lemma_net_created_accepted(s, init);
        let last = ops.len() - 1;
        assert(ops.take(last) =~= init);
        assert(op_accepted(run_ops(s, ops.take(last)), ops[last]));
    }
}

impl View for ProxyPluginState {
    type V = Seq<ProxySession>;

    open spec fn view(&self) -> Seq<ProxySession> {
        self.sessions@
    }
}

impl ProxyPluginState {
    /// Handles are unique and every session is well formed.
    pub open spec fn wf(&self) -> bool {
        &&& handles_unique(self@)
        &&& forall|i: int| 0 <= i < self@.len() ==> (#[trigger] self@[i]).wf()
    }

    /// An empty registry, before the bridge is initialized.
    pub fn new() -> (r: ProxyPluginState)
        ensures
            r.wf(),
            r@.len() == 0,
            !r.bridge_ready,
    {
        ProxyPluginState { sessions: Vec::new(), bridge_ready: false }
    }

    /// Position of the session registered under `handle`.
    fn find(&self, handle: u64) -> (r: Option<usize>)
        ensures
            match r {
                Some(i) => i as int == index_of(self@, handle) && i < self@.len(),
                None => index_of(self@, handle) < 0,
            },
    {
        let mut i: usize = self.sessions.len();
        assert(self@.subrange(0, i as int) =~= self@);
        while i > 0
            invariant
                i <= self@.len(),
                index_of(self@, handle) == index_of(self@.subrange(0, i as int), handle),
            decreases i,
        {
            assert(self@.subrange(0, i as int).drop_last() =~= self@.subrange(0, i - 1));
            i = i - 1;
            if self.sessions[i].handle == handle {
                return Some(i);
            }
        }
        None
    }

    /// Registers a fresh session under `handle`; fails with `DuplicateSession`
    /// when one is already there, registered or destroyed.
    pub fn create_session(&mut self, handle: u64) -> (r: Result<(), ProxyError>)
        requires
            old(self).wf(),
        ensures
            final(self).wf(),
            final(self).bridge_ready == old(self).bridge_ready,
            final(self)@ == registry_step(old(self)@, RegistryOp::Create(handle)),
            r == (if index_of(old(self)@, handle) < 0 {
                Ok::<(), ProxyError>(())
            } else {
                Err(ProxyError::DuplicateSession)
            }),
    {
        match self.find(handle) {
            Some(_) => Err(ProxyError::DuplicateSession),
            None => {
                proof {
                    lemma_index_of(self@, handle);
                }
                self.sessions.push(ProxySession::new(handle));
                Ok(())
            },
        }
    }

    /// Applies an event to the session under `handle`.
    pub(crate) fn update_session(&mut self, handle: u64, e: SessionEvent) -> (r: Result<(), ProxyError>)
        requires
            old(self).wf(),
        ensures
            final(self).wf(),
            final(self).bridge_ready == old(self).bridge_ready,
            final(self)@ == registry_apply(old(self)@, handle, e),
            r == event_result(old(self)@, handle),
    {
        match self.find(handle) {
            None => Err(ProxyError::SessionNotFound),
            Some(i) => {
                proof {
                    lemma_index_of(self@, handle);
                }
                let mut s = self.sessions[i];
                let r = s.apply(e);
                self.sessions.set(i, s);
                r
            },
        }
    }

    /// Marks the session under `handle` destroyed. Fails with
    /// `SessionNotFound` when there is none and with `SessionDestroyed` when
    /// it was already destroyed; then nothing changes.
    pub fn destroy_session(&mut self, handle: u64) -> (r: Result<(), ProxyError>)
        requires
            old(self).wf(),
        ensures
            final(self).wf(),
            final(self).bridge_ready == old(self).bridge_ready,
            final(self)@ == registry_step(old(self)@, RegistryOp::Destroy(handle)),
            r == event_result(old(self)@, handle),
            index_of(old(self)@, handle) < 0 ==> r == Err::<(), ProxyError>(
                ProxyError::SessionNotFound,
            ) && final(self)@ == old(self)@,
    {
        self.update_session(handle, SessionEvent::Destroy)
    }

    /// WebRTC media became available on the session under `handle`.
    pub fn setup_media(&mut self, handle: u64) -> (r: Result<(), ProxyError>)
        requires
            old(self).wf(),
        ensures
            final(self).wf(),
            final(self).bridge_ready == old(self).bridge_ready,
            final(self)@ == registry_apply(old(self)@, handle, SessionEvent::SetupMedia),
            r == event_result(old(self)@, handle),
    {
        self.update_session(handle, SessionEvent::SetupMedia)
    }

    /// The media of the session under `handle` is being hung up.
    pub fn hangup_media(&mut self, handle: u64) -> (r: Result<(), ProxyError>)
        requires
            old(self).wf(),
        ensures
            final(self).wf(),
            final(self).bridge_ready == old(self).bridge_ready,
            final(self)@ == registry_apply(old(self)@, handle, SessionEvent::HangupMedia),
            r == event_result(old(self)@, handle),
    {
        self.update_session(handle, SessionEvent::HangupMedia)
    }

    /// Records a slow-link report on the session under `handle`; no flow
    /// control action is taken.
    pub fn slow_link(&mut self, handle: u64) -> (r: Result<(), ProxyError>)
        requires
            old(self).wf(),
        ensures
            final(self).wf(),
            final(self).bridge_ready == old(self).bridge_ready,
            final(self)@ == registry_apply(old(self)@, handle, SessionEvent::SlowLink),
            r == event_result(old(self)@, handle),
    {
        self.update_session(handle, SessionEvent::SlowLink)
    }

    /// The session registered under `handle`, destroyed or not.
    pub fn lookup(&self, handle: u64) -> (r: Result<ProxySession, ProxyError>)
        ensures
            r == (if index_of(self@, handle) < 0 {
                Err::<ProxySession, ProxyError>(ProxyError::SessionNotFound)
            } else {
                Ok(self@[index_of(self@, handle)])
            }),
    {
        match self.find(handle) {
            None => Err(ProxyError::SessionNotFound),
            Some(i) => Ok(self.sessions[i]),
        }
    }

    /// Bitrate, slow-link count and destroyed flag of the session under
    /// `handle`; answers for destroyed sessions too.
    pub fn query_session(&self, handle: u64) -> (r: Result<SessionSnapshot, ProxyError>)
        ensures
            r == (if index_of(self@, handle) < 0 {
                Err::<SessionSnapshot, ProxyError>(ProxyError::SessionNotFound)
            } else {
                Ok(snapshot_of(self@[index_of(self@, handle)]))
            }),
    {
        match self.find(handle) {
            None => Err(ProxyError::SessionNotFound),
            Some(i) => {
                let s = self.sessions[i];
                Ok(
                    SessionSnapshot {
                        bitrate: s.bitrate,
                        slowlink_count: s.slowlink_count,
                        destroyed: if s.destroyed {
                            1
                        } else {
                            0
                        },
                    },
                )
            },
        }
    }

    /// How many registered sessions are not destroyed.
    pub fn live_session_count(&self) -> (r: usize)
        ensures
            r == live_count(self@),
    {
        let mut n: usize = 0;
        let mut i: usize = 0;
        while i < self.sessions.len()
            invariant
                i <= self@.len(),
                n == live_count(self@.subrange(0, i as int)),
                n <= i,
            decreases self@.len() - i,
        {
            assert(self@.subrange(0, i + 1).drop_last() =~= self@.subrange(0, i as int));
            if !self.sessions[i].destroyed {
                n = n + 1;
            }
            i = i + 1;
        }
        assert(self@.subrange(0, i as int) =~= self@);
        n
    }
}

} // verus!
