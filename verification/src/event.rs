//! The events that the codecs produce and the sink consumes.

use vstd::prelude::*;
use crate::codes::{EV_ABSOLUTE, EV_KEY, EV_RELATIVE, EV_SYNCHRONIZATION};
use crate::codes::{ev_absolute, ev_key, ev_relative, ev_synchronization};

verus! {

/// One decoded input event.
#[derive(Debug, Clone, Copy, PartialEq, Eq, Structural)]
pub enum SemanticEvent {
    /// A key or button went down (`pressed`) or up.
    Key { code: u16, pressed: bool },
    /// An absolute axis took a new position.
    AbsoluteAxis { code: u16, value: i32 },
    /// A relative axis moved by `delta`.
    RelativeAxis { code: u16, delta: i32 },
    /// End of a batch.
    Sync,
}

/// The type, code and value fields of a kernel input event.
#[derive(Debug, Clone, Copy, PartialEq, Eq, Structural)]
pub struct RawEvent {
    pub kind: u16,
    pub code: u16,
    pub value: i32,
}

/// Code field of the end-of-batch marker.
pub const SYNC_CODE: u16 = 1;

impl SemanticEvent {
    /// The kernel form of an event: a key carries 1 while pressed and 0
    /// otherwise, an axis carries its number, and the end-of-batch marker is
    /// a synchronization event with code `SYNC_CODE` and value 0.
    pub open spec fn raw(self) -> RawEvent {
        match self {
            SemanticEvent::Key { code, pressed } => RawEvent {
                kind: EV_KEY,
                code,
                value: if pressed { 1i32 } else { 0i32 },
            },
            SemanticEvent::AbsoluteAxis { code, value } => RawEvent { kind: EV_ABSOLUTE, code, value },
            SemanticEvent::RelativeAxis { code, delta } => RawEvent {
                kind: EV_RELATIVE,
                code,
                value: delta,
            },
            SemanticEvent::Sync => RawEvent { kind: EV_SYNCHRONIZATION, code: SYNC_CODE, value: 0i32 },
        }
    }

    /// Gives one event its kernel form.
    pub fn to_raw(&self) -> (raw: RawEvent)
        ensures
            raw == self.raw(),
    {
        match *self {
            SemanticEvent::Key { code, pressed } => {
                let value: i32 = if pressed { 1 } else { 0 };
                RawEvent { kind: ev_key(), code, value }
            },
            SemanticEvent::AbsoluteAxis { code, value } => RawEvent { kind: ev_absolute(), code, value },
            SemanticEvent::RelativeAxis { code, delta } => RawEvent {
                kind: ev_relative(),
                code,
                value: delta,
            },
            SemanticEvent::Sync => RawEvent { kind: ev_synchronization(), code: SYNC_CODE, value: 0 },
        }
    }
}

/// The kernel forms of a batch, event by event.
pub open spec fn raw_batch(events: Seq<SemanticEvent>) -> Seq<RawEvent> {
    Seq::new(events.len(), |i: int| events[i].raw())
}

/// Gives a batch its kernel form, keeping its order.
pub fn to_raw_batch(events: &Vec<SemanticEvent>) -> (raws: Vec<RawEvent>)
    ensures
        raws@ == raw_batch(events@),
{
    let mut raws: Vec<RawEvent> = Vec::new();
    let mut i: usize = 0;
    while i < events.len()
        invariant
            i <= events.len(),
            raws@ == raw_batch(events@.subrange(0, i as int)),
        decreases events.len() - i,
    {
        raws.push(events[i].to_raw());
        i += 1;
        assert(raws@ =~= raw_batch(events@.subrange(0, i as int)));
    }
    assert(events@.subrange(0, i as int) =~= events@);
    raws
}

} // verus!
