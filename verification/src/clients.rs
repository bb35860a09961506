//! The count of active clients, which gates discovery.

use vstd::prelude::*;

verus! {

/// Number of connection handlers that are running.
pub struct ActiveClients {
    pub count: usize,
}

/// The count after one more handler started. It wraps at the end of the
/// range.
pub open spec fn count_after_connect(count: usize) -> usize {
    if count == usize::MAX {
        0
    } else {
        (count + 1) as usize
    }
}

/// The count after one handler ended. It wraps below zero.
pub open spec fn count_after_disconnect(count: usize) -> usize {
    if count == 0 {
        usize::MAX
    } else {
        (count - 1) as usize
    }
}

impl ActiveClients {
    /// A count of zero.
    pub fn new() -> (clients: ActiveClients)
        ensures
            clients.count == 0,
    {
        ActiveClients { count: 0 }
    }

    /// The current count.
    pub fn active(&self) -> (count: usize)
        ensures
            count == self.count,
    {
        self.count
    }

    /// Whether any handler is running.
    pub fn any_active(&self) -> (any: bool)
        ensures
            any == (self.count > 0),
    {
        self.count > 0
    }
}

/// Proof that a handler was counted. It is made when the handler starts and
/// given back when the handler ends, on whatever path it ends.
pub struct ConnectionGuard {
    _counted: (),
}

impl ConnectionGuard {
    /// Counts a handler that starts.
    pub fn new(counter: &mut ActiveClients) -> (guard: ConnectionGuard)
        ensures
            final(counter).count == count_after_connect(old(counter).count),
    {
        if counter.count == usize::MAX {
            counter.count = 0;
        } else {
            counter.count = counter.count + 1;
        }
        ConnectionGuard { _counted: () }
    }

    /// Counts a handler that ended.
    pub fn release(self, counter: &mut ActiveClients)
        ensures
            final(counter).count == count_after_disconnect(old(counter).count),
    {
        if counter.count == 0 {
            counter.count = usize::MAX;
        } else {
            counter.count = counter.count - 1;
        }
    }
}

/// A handler that starts and ends leaves the count as it found it.
pub proof fn lemma_guard_restores_count(count: usize)
    ensures
        count_after_disconnect(count_after_connect(count)) == count,
{
}

} // verus!
