//! The connection arbiter: one channel, at most one owner.
//!
//! A channel records the peer that owns it together with a connection id
//! taken from a counter that only grows. A different peer that shows up takes
//! the channel over, and the decision handed back names the connection that
//! lost it, so that its handler can be told to stop. A handler that ends
//! clears the record only while the record is still its own.
//!
//! The arbiter is plain data. A caller that shares it between tasks keeps it
//! behind one lock, and holds the lock for the whole of `admit_peer` or `teardown`.

use vstd::prelude::*;

verus! {

/// The network address of a peer, without its port.
#[derive(Debug, Clone, Copy, PartialEq, Eq, Structural)]
pub enum PeerAddr {
    V4(u32),
    V6(u128),
}

/// The record of the peer that owns a channel.
#[derive(Debug, Clone, Copy, PartialEq, Eq, Structural)]
pub struct Session {
    pub owner: PeerAddr,
    pub connection_id: u64,
}

/// What `admit_peer` decided. A connection id also names the cancellation signal
/// of that connection.
#[derive(Debug, Clone, Copy, PartialEq, Eq, Structural)]
pub enum Decision {
    /// The peer owns the channel under `connection_id` and nobody lost it:
    /// either the channel was free, or the peer owned it already and goes on
    /// under the id it had.
    Accept { connection_id: u64 },
    /// The peer took the channel over under `connection_id`. The signal of
    /// `evicted_id` is to be fired.
    EvictPrevious { evicted_id: u64, connection_id: u64 },
    /// The counter of connection ids is used up. Nothing changed.
    Reject,
}

/// What an arbiter holds, as contracts see it.
pub struct ArbiterModel {
    pub session: Option<Session>,
    pub next_id: u64,
}

impl ArbiterModel {
    /// The recorded id was handed out before the next one.
    pub open spec fn wf(self) -> bool {
        self.session matches Some(s) ==> s.connection_id < self.next_id
    }

    /// No further connection id can be handed out.
    pub open spec fn exhausted(self) -> bool {
        self.next_id == u64::MAX
    }

    /// The state in which `addr` owns the channel under the next id.
    pub open spec fn installed(self, addr: PeerAddr) -> ArbiterModel {
        ArbiterModel {
            session: Some(Session { owner: addr, connection_id: self.next_id }),
            next_id: (self.next_id + 1) as u64,
        }
    }

    /// The state and the decision after `addr` asked for the channel.
    pub open spec fn admit_peer(self, addr: PeerAddr) -> (ArbiterModel, Decision) {
        match self.session {
            Some(s) => {
                if s.owner == addr {
                    (self, Decision::Accept { connection_id: s.connection_id })
                } else if self.exhausted() {
                    (self, Decision::Reject)
                } else {
                    (
                        self.installed(addr),
                        Decision::EvictPrevious {
                            evicted_id: s.connection_id,
                            connection_id: self.next_id,
                        },
                    )
                }
            },
            None => {
                if self.exhausted() {
                    (self, Decision::Reject)
                } else {
                    (self.installed(addr), Decision::Accept { connection_id: self.next_id })
                }
            },
        }
    }

    /// Whether the record is exactly `(addr, connection_id)`.
    pub open spec fn owned_by(self, addr: PeerAddr, connection_id: u64) -> bool {
        self.session == Some(Session { owner: addr, connection_id })
    }

    /// The state after the handler of `(addr, connection_id)` ended.
    pub open spec fn teardown(self, addr: PeerAddr, connection_id: u64) -> ArbiterModel {
        if self.owned_by(addr, connection_id) {
            ArbiterModel { session: None, next_id: self.next_id }
        } else {
            self
        }
    }
}

/// The session record of one channel and the counter of its connection ids.
pub struct Arbiter {
    session: Option<Session>,
    next_id: u64,
}

impl View for Arbiter {
    type V = ArbiterModel;

    closed spec fn view(&self) -> ArbiterModel {
        ArbiterModel { session: self.session, next_id: self.next_id }
    }
}

impl Arbiter {
    #[verifier::type_invariant]
    spec fn inv(self) -> bool {
        self@.wf()
    }

    /// An arbiter of a free channel that has handed out no id.
    pub fn new() -> (arbiter: Arbiter)
        ensures
            arbiter@ == (ArbiterModel { session: None, next_id: 0 }),
    {
        Arbiter { session: None, next_id: 0 }
    }

    /// An arbiter of a free channel whose counter stands at `next_id`.
    pub fn starting_at(next_id: u64) -> (arbiter: Arbiter)
        ensures
            arbiter@ == (ArbiterModel { session: None, next_id }),
    {
        Arbiter { session: None, next_id }
    }

    /// The current record.
    pub fn current(&self) -> (session: Option<Session>)
        ensures
            session == self@.session,
            self@.wf(),
    {
        proof {
            use_type_invariant(self);
        }
        self.session
    }

    /// Decides whether `addr` gets the channel, and records it if so.
    pub fn admit_peer(&mut self, addr: PeerAddr) -> (decision: Decision)
        ensures
            (final(self)@, decision) == old(self)@.admit_peer(addr),
            old(self)@.wf(),
            final(self)@.wf(),
    {
        proof {
            use_type_invariant(&*self);
        }
        let previous = self.session;
        match previous {
            Some(s) => {
                if s.owner == addr {
                    return Decision::Accept { connection_id: s.connection_id };
                }
            },
            None => {},
        }
        if self.next_id == u64::MAX {
            return Decision::Reject;
        }
        let connection_id: u64 = self.next_id;
        *self = Arbiter {
            session: Some(Session { owner: addr, connection_id }),
            next_id: connection_id + 1,
        };
        match previous {
            Some(s) => Decision::EvictPrevious { evicted_id: s.connection_id, connection_id },
            None => Decision::Accept { connection_id },
        }
    }

    /// Ends the connection `(addr, connection_id)`: clears the record if it
    /// still is that connection's, and says whether it did.
    pub fn teardown(&mut self, addr: PeerAddr, connection_id: u64) -> (cleared: bool)
        ensures
            final(self)@ == old(self)@.teardown(addr, connection_id),
            cleared == old(self)@.owned_by(addr, connection_id),
            old(self)@.wf(),
            final(self)@.wf(),
    {
        proof {
            use_type_invariant(&*self);
        }
        match self.session {
            Some(s) => {
                if s.owner == addr && s.connection_id == connection_id {
                    self.session = None;
                    true
                } else {
                    false
                }
            },
            None => false,
        }
    }
}

/// The state after the peers of `peers` asked for the channel one after
/// the other.
pub open spec fn after_admissions(m: ArbiterModel, peers: Seq<PeerAddr>) -> ArbiterModel
    decreases peers.len(),
{
    if peers.len() == 0 {
        m
    } else {
        after_admissions(m, peers.drop_last()).admit_peer(peers.last()).0
    }
}

/// Whatever peers ask for the channel, in whatever order, the arbiter stays
/// well-formed, its counter never falls, and its one record names the peer
/// that asked last, unless that peer was rejected.
pub proof fn lemma_any_sequence_keeps_one_owner(m: ArbiterModel, peers: Seq<PeerAddr>)
    requires
        m.wf(),
    ensures
        after_admissions(m, peers).wf(),
        after_admissions(m, peers).next_id >= m.next_id,
        peers.len() > 0 && after_admissions(m, peers.drop_last()).admit_peer(peers.last()).1
            != Decision::Reject ==> after_admissions(m, peers).session is Some && after_admissions(
            m,
            peers,
        ).session->0.owner == peers.last(),
    decreases peers.len(),
{
    if peers.len() > 0 {
        lemma_any_sequence_keeps_one_owner(m, peers.drop_last());
    }
}

/// Admission and teardown keep an arbiter well-formed.
pub proof fn lemma_steps_keep_wf(m: ArbiterModel, addr: PeerAddr, connection_id: u64)
    requires
        m.wf(),
    ensures
        m.admit_peer(addr).0.wf(),
        m.teardown(addr, connection_id).wf(),
{
}

/// After any admission that was not rejected, the record names the admitted
/// peer under the id that the decision carries.
pub proof fn lemma_admitted_peer_owns_channel(m: ArbiterModel, addr: PeerAddr)
    requires
        m.admit_peer(addr).1 != Decision::Reject,
    ensures
        match m.admit_peer(addr).1 {
            Decision::Accept { connection_id } => m.admit_peer(addr).0.owned_by(addr, connection_id),
            Decision::EvictPrevious { connection_id, .. } => m.admit_peer(addr).0.owned_by(
                addr,
                connection_id,
            ),
            Decision::Reject => false,
        },
{
}

/// Single ownership. Let `a` be admitted, then a different peer `b`. The
/// decision that gives `b` the channel is the one that names `a`'s connection
/// as evicted, the record then shows `b` alone, and `b`'s id is not `a`'s.
pub proof fn lemma_takeover_evicts_owner(m: ArbiterModel, a: PeerAddr, b: PeerAddr)
    requires
        m.wf(),
        a != b,
        m.admit_peer(a).1 != Decision::Reject,
        m.admit_peer(a).0.admit_peer(b).1 != Decision::Reject,
    ensures
        ({
            let after_a = m.admit_peer(a).0;
            let (after_b, decision) = after_a.admit_peer(b);
            &&& after_a.session is Some
            &&& after_a.session->0.owner == a
            &&& decision == Decision::EvictPrevious {
                evicted_id: after_a.session->0.connection_id,
                connection_id: after_a.next_id,
            }
            &&& after_b.session == Some(Session { owner: b, connection_id: after_a.next_id })
            &&& after_a.session->0.connection_id != after_a.next_id
        }),
{
}

/// A stale teardown changes nothing. If `b` took the channel from `a`, the
/// teardown of `a`'s connection leaves the record showing `b`.
pub proof fn lemma_stale_teardown_is_noop(m: ArbiterModel, a: PeerAddr, a_id: u64, b: PeerAddr)
    requires
        m.wf(),
        m.owned_by(a, a_id),
        a != b,
        m.admit_peer(b).1 != Decision::Reject,
    ensures
        m.admit_peer(b).0.teardown(a, a_id) == m.admit_peer(b).0,
        m.admit_peer(b).0.session is Some,
        m.admit_peer(b).0.session->0.owner == b,
{
}

/// Ids are never handed out twice: a connection whose id was handed out
/// before an admission cannot clear the record that the admission installed,
/// whatever its address.
pub proof fn lemma_old_ids_cannot_clear(
    m: ArbiterModel,
    newcomer: PeerAddr,
    old_addr: PeerAddr,
    old_id: u64,
)
    requires
        m.wf(),
        old_id < m.next_id,
        m.admit_peer(newcomer).0.next_id != m.next_id,
    ensures
        m.admit_peer(newcomer).0.teardown(old_addr, old_id) == m.admit_peer(newcomer).0,
        m.admit_peer(newcomer).0.session is Some,
{
}

} // verus!
