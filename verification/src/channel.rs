//! A channel whose peers hold connections: the arbiter, and the number of
//! handlers that run under its record.
//!
//! A peer that owns the channel may connect again while its first connection
//! is still served. Both handlers then run under the one connection id, and
//! the record must outlive the first of them to end: it is cleared when the
//! last handler of its id ends. A handler whose id is no longer the recorded
//! one changes nothing when it ends.

use vstd::prelude::*;
use crate::arbiter::{Arbiter, ArbiterModel, Decision, PeerAddr, Session};

verus! {

/// What a channel holds, as contracts see it.
pub struct ChannelModel {
    pub arbiter: ArbiterModel,
    /// Number of handlers that run under the recorded connection id.
    pub handlers: u64,
}

impl ChannelModel {
    /// There is a record exactly while some handler runs under it.
    pub open spec fn wf(self) -> bool {
        &&& self.arbiter.wf()
        &&& self.arbiter.session is Some <==> self.handlers > 0
    }

    /// Whether `addr` owns the channel already.
    pub open spec fn continues(self, addr: PeerAddr) -> bool {
        self.arbiter.session matches Some(s) && s.owner == addr
    }

    /// The state and the decision after `addr` connected. The owner goes on
    /// under its id with one handler more; any other peer is put to the
    /// arbiter and, if admitted, starts with one handler. A handler that
    /// cannot be counted, or a peer that the arbiter rejects, changes
    /// nothing.
    pub open spec fn connect(self, addr: PeerAddr) -> (ChannelModel, Decision) {
        if self.continues(addr) {
            if self.handlers == u64::MAX {
                (self, Decision::Reject)
            } else {
                (
                    ChannelModel { arbiter: self.arbiter, handlers: (self.handlers + 1) as u64 },
                    Decision::Accept { connection_id: self.arbiter.session->0.connection_id },
                )
            }
        } else {
            let (arbiter, decision) = self.arbiter.admit_peer(addr);
            if decision == Decision::Reject {
                (self, Decision::Reject)
            } else {
                (ChannelModel { arbiter, handlers: 1 }, decision)
            }
        }
    }

    /// Whether the end of the handler `(addr, connection_id)` clears the
    /// record: the record is that connection's, and no other handler runs
    /// under it.
    pub open spec fn clears(self, addr: PeerAddr, connection_id: u64) -> bool {
        self.arbiter.owned_by(addr, connection_id) && self.handlers <= 1
    }

    /// The state after the handler `(addr, connection_id)` ended.
    pub open spec fn disconnect(self, addr: PeerAddr, connection_id: u64) -> ChannelModel {
        if !self.arbiter.owned_by(addr, connection_id) {
            self
        } else if self.handlers <= 1 {
            ChannelModel { arbiter: self.arbiter.teardown(addr, connection_id), handlers: 0 }
        } else {
            ChannelModel { arbiter: self.arbiter, handlers: (self.handlers - 1) as u64 }
        }
    }
}

/// The session record of one channel and the count of the handlers that run
/// under it.
pub struct Channel {
    arbiter: Arbiter,
    handlers: u64,
}

impl View for Channel {
    type V = ChannelModel;

    closed spec fn view(&self) -> ChannelModel {
        ChannelModel { arbiter: self.arbiter@, handlers: self.handlers }
    }
}

impl Channel {
    #[verifier::type_invariant]
    spec fn inv(self) -> bool {
        self@.wf()
    }

    /// A free channel.
    pub fn new() -> (channel: Channel)
        ensures
            channel@ == (ChannelModel {
                arbiter: ArbiterModel { session: None, next_id: 0 },
                handlers: 0,
            }),
    {
        Channel { arbiter: Arbiter::new(), handlers: 0 }
    }

    /// A free channel whose counter of connection ids stands at `next_id`.
    pub fn starting_at(next_id: u64) -> (channel: Channel)
        ensures
            channel@ == (ChannelModel {
                arbiter: ArbiterModel { session: None, next_id },
                handlers: 0,
            }),
    {
        Channel { arbiter: Arbiter::starting_at(next_id), handlers: 0 }
    }

    /// The current record.
    pub fn current(&self) -> (session: Option<Session>)
        ensures
            session == self@.arbiter.session,
            self@.wf(),
    {
        proof {
            use_type_invariant(self);
        }
        self.arbiter.current()
    }

    /// Number of handlers that run under the current record.
    pub fn handlers(&self) -> (count: u64)
        ensures
            count == self@.handlers,
    {
        self.handlers
    }

    /// Counts a connection from `addr` and decides under which id its
    /// handler runs, or that it is turned away.
    pub fn connect(&mut self, addr: PeerAddr) -> (decision: Decision)
        ensures
            (final(self)@, decision) == old(self)@.connect(addr),
            old(self)@.wf(),
            final(self)@.wf(),
    {
        proof {
            use_type_invariant(&*self);
        }
        let continuing = match self.arbiter.current() {
            Some(s) => s.owner == addr,
            None => false,
        };
        if continuing && self.handlers == u64::MAX {
            return Decision::Reject;
        }
        let counted: u64 = if continuing {
            self.handlers + 1
        } else {
            1
        };
        let mut taken = Channel::new();
        std::mem::swap(&mut taken, self);
        let Channel { arbiter, handlers } = taken;
        let mut arbiter = arbiter;
        let decision = arbiter.admit_peer(addr);
        match decision {
            Decision::Reject => {
                *self = Channel { arbiter, handlers };
            },
            _ => {
                *self = Channel { arbiter, handlers: counted };
            },
        }
        decision
    }

    /// Ends the handler `(addr, connection_id)`. The record is cleared if it
    /// is that connection's and this was the last handler under it; the
    /// result says whether it was cleared.
    pub fn disconnect(&mut self, addr: PeerAddr, connection_id: u64) -> (cleared: bool)
        ensures
            final(self)@ == old(self)@.disconnect(addr, connection_id),
            cleared == old(self)@.clears(addr, connection_id),
            old(self)@.wf(),
            final(self)@.wf(),
    {
        proof {
            use_type_invariant(&*self);
        }
        let owned = match self.arbiter.current() {
            Some(s) => s.owner == addr && s.connection_id == connection_id,
            None => false,
        };
        if !owned {
            false
        } else if self.handlers <= 1 {
            let mut taken = Channel::new();
            std::mem::swap(&mut taken, self);
            let Channel { arbiter, handlers: _ } = taken;
            let mut arbiter = arbiter;
            arbiter.teardown(addr, connection_id);
            *self = Channel { arbiter, handlers: 0 };
            true
        } else {
            self.handlers = self.handlers - 1;
            false
        }
    }
}

/// Connecting and disconnecting keep a channel well-formed.
pub proof fn lemma_channel_steps_keep_wf(c: ChannelModel, addr: PeerAddr, connection_id: u64)
    requires
        c.wf(),
    ensures
        c.connect(addr).0.wf(),
        c.disconnect(addr, connection_id).wf(),
{
}

/// A record outlives the first of its handlers to end. If a peer takes the
/// channel and then connects a second time, the end of one of the two
/// handlers leaves the record in place, so that the other can still be
/// evicted; the end of the second clears it.
pub proof fn lemma_record_outlives_first_handler(c: ChannelModel, a: PeerAddr)
    requires
        c.wf(),
        !c.continues(a),
        c.connect(a).1 != Decision::Reject,
        c.connect(a).0.connect(a).1 != Decision::Reject,
    ensures
        ({
            let (first, first_decision) = c.connect(a);
            let (second, second_decision) = first.connect(a);
            let id = first.arbiter.session->0.connection_id;
            let one_left = second.disconnect(a, id);
            &&& first.arbiter.owned_by(a, id)
            &&& second_decision == Decision::Accept { connection_id: id }
            &&& second.arbiter == first.arbiter
            &&& !second.clears(a, id)
            &&& one_left.arbiter.owned_by(a, id)
            &&& one_left.clears(a, id)
            &&& one_left.disconnect(a, id).arbiter.session is None
        }),
{
}

/// Takeover on a channel with connections: a different peer that is admitted
/// evicts the recorded connection, whatever number of handlers runs under
/// it, and none of those handlers can clear the new record when it ends.
pub proof fn lemma_takeover_outlasts_evicted_handlers(
    c: ChannelModel,
    a: PeerAddr,
    a_id: u64,
    b: PeerAddr,
)
    requires
        c.wf(),
        c.arbiter.owned_by(a, a_id),
        a != b,
        c.connect(b).1 != Decision::Reject,
    ensures
        c.connect(b).1 == (Decision::EvictPrevious {
            evicted_id: a_id,
            connection_id: c.arbiter.next_id,
        }),
        c.connect(b).0.arbiter.owned_by(b, c.arbiter.next_id),
        c.connect(b).0.handlers == 1,
        c.connect(b).0.disconnect(a, a_id) == c.connect(b).0,
{
}

} // verus!
