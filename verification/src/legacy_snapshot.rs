//! The older snapshot datagram, with one byte for each button.
//!
//! Layout: header, twelve button bytes, then eight signed little-endian
//! 16-bit axis values. Its buttons follow an order of their own, and its axes
//! follow the rules of single axis updates: triggers are buttons, pad axes
//! are reduced to their sign.

use vstd::prelude::*;
use crate::codes::{
    BTN_EAST, BTN_MODE, BTN_NORTH, BTN_SELECT, BTN_SOUTH, BTN_START, BTN_THUMBL, BTN_THUMBR, BTN_TL,
    BTN_TR, BTN_WEST,
};
use crate::codes::{
    btn_east, btn_mode, btn_north, btn_select, btn_south, btn_start, btn_thumbl, btn_thumbr, btn_tl,
    btn_tr, btn_west,
};
use crate::event::SemanticEvent;
use crate::gamepad::{axis_update_events, push_axis_update};
use crate::protocol::{HEADER_GAMEPAD_SNAPSHOT, i16_le, read_i16_le};
use crate::snapshot::{finish_batch, sealed};

verus! {

/// Shortest datagram of the older layout that is decoded.
pub const LEGACY_SNAPSHOT_MIN_LEN: usize = 29;

/// Whether a datagram of the older layout is decoded at all.
pub open spec fn legacy_snapshot_accepted(packet: Seq<u8>) -> bool {
    packet.len() >= LEGACY_SNAPSHOT_MIN_LEN && packet[0] == HEADER_GAMEPAD_SNAPSHOT
}

/// The twelve button bytes of a datagram.
pub open spec fn legacy_buttons(packet: Seq<u8>) -> Seq<u8> {
    packet.subrange(1, 13)
}

/// The eight axis values of a datagram.
pub open spec fn legacy_axes(packet: Seq<u8>) -> Seq<i16> {
    Seq::new(8, |i: int| i16_le(packet[13 + 2 * i], packet[14 + 2 * i]) as i16)
}

/// Key codes of the twelve button bytes, by position: A, B, X, Y, LB, RB,
/// Start, Back, L3, R3, and the guide button twice.
pub open spec fn legacy_button_codes() -> Seq<u16> {
    seq![
        BTN_SOUTH,
        BTN_EAST,
        BTN_NORTH,
        BTN_WEST,
        BTN_TL,
        BTN_TR,
        BTN_START,
        BTN_SELECT,
        BTN_THUMBL,
        BTN_THUMBR,
        BTN_MODE,
        BTN_MODE,
    ]
}

/// One key event for each button byte: the button is down while its byte is
/// above zero.
pub open spec fn legacy_button_events(buttons: Seq<u8>) -> Seq<SemanticEvent> {
    Seq::new(
        12,
        |i: int| SemanticEvent::Key { code: legacy_button_codes()[i], pressed: buttons[i] > 0 },
    )
}

/// The events of the eight axes, each by the rule of a single axis update.
pub open spec fn legacy_axis_events(axes: Seq<i16>) -> Seq<SemanticEvent> {
    axis_update_events(0, axes[0] as int) + axis_update_events(1, axes[1] as int)
        + axis_update_events(2, axes[2] as int) + axis_update_events(3, axes[3] as int)
        + axis_update_events(4, axes[4] as int) + axis_update_events(5, axes[5] as int)
        + axis_update_events(6, axes[6] as int) + axis_update_events(7, axes[7] as int)
}

/// The events of one snapshot of the older layout, buttons first, before
/// the batch is closed.
pub open spec fn legacy_events(buttons: Seq<u8>, axes: Seq<i16>) -> Seq<SemanticEvent> {
    legacy_button_events(buttons) + legacy_axis_events(axes)
}

/// The batch of one snapshot of the older layout as it is handed to the
/// sink: its events, closed by the end-of-batch marker.
pub open spec fn legacy_batch(buttons: Seq<u8>, axes: Seq<i16>) -> Seq<SemanticEvent> {
    sealed(legacy_events(buttons, axes))
}

/// The batch that a datagram of the older layout gives.
pub open spec fn legacy_snapshot_events(packet: Seq<u8>) -> Seq<SemanticEvent> {
    if legacy_snapshot_accepted(packet) {
        legacy_batch(legacy_buttons(packet), legacy_axes(packet))
    } else {
        Seq::empty()
    }
}

fn legacy_button_code(idx: usize) -> (code: u16)
    requires
        idx < 12,
    ensures
        code == legacy_button_codes()[idx as int],
{
    if idx == 0 {
        btn_south()
    } else if idx == 1 {
        btn_east()
    } else if idx == 2 {
        btn_north()
    } else if idx == 3 {
        btn_west()
    } else if idx == 4 {
        btn_tl()
    } else if idx == 5 {
        btn_tr()
    } else if idx == 6 {
        btn_start()
    } else if idx == 7 {
        btn_select()
    } else if idx == 8 {
        btn_thumbl()
    } else if idx == 9 {
        btn_thumbr()
    } else {
        btn_mode()
    }
}

/// Turns the buttons and axes of one snapshot of the older layout into the
/// batch for the sink: twelve button events, eight axis events, and the
/// end-of-batch marker last.
pub fn process_gamepad_snapshot(buttons: &[u8; 12], axes: &[i16; 8]) -> (events: Vec<SemanticEvent>)
    ensures
        events@ == legacy_batch(buttons@, axes@),
{
    let mut events: Vec<SemanticEvent> = Vec::new();
    let mut i: usize = 0;
    while i < 12
        invariant
            i <= 12,
            events@.len() == i,
            forall|k: int| 0 <= k < i ==> events@[k] == legacy_button_events(buttons@)[k],
        decreases 12 - i,
    {
        events.push(SemanticEvent::Key { code: legacy_button_code(i), pressed: buttons[i] > 0 });
        i += 1;
    }
    assert(events@ =~= legacy_button_events(buttons@));
    push_axis_update(&mut events, 0, axes[0]);
    push_axis_update(&mut events, 1, axes[1]);
    push_axis_update(&mut events, 2, axes[2]);
    push_axis_update(&mut events, 3, axes[3]);
    push_axis_update(&mut events, 4, axes[4]);
    push_axis_update(&mut events, 5, axes[5]);
    push_axis_update(&mut events, 6, axes[6]);
    push_axis_update(&mut events, 7, axes[7]);
    assert(events@ =~= legacy_events(buttons@, axes@));
    finish_batch(events)
}

/// The buttons and axes of one snapshot of the older layout.
#[derive(Debug, Clone, Copy)]
pub struct LegacySnapshot {
    /// One byte for each button, above zero while the button is down.
    pub buttons: [u8; 12],
    /// Axis values, in the order of the controller layout.
    pub axes: [i16; 8],
}

/// Reads the buttons and axes off a datagram of the older layout, or drops
/// it.
pub fn parse_legacy_snapshot(packet: &[u8]) -> (parsed: Option<LegacySnapshot>)
    ensures
        parsed is Some <==> legacy_snapshot_accepted(packet@),
        parsed matches Some(snapshot) ==> snapshot.buttons@ == legacy_buttons(packet@)
            && snapshot.axes@ == legacy_axes(packet@),
{
    if packet.len() >= LEGACY_SNAPSHOT_MIN_LEN && packet[0] == HEADER_GAMEPAD_SNAPSHOT {
        let buttons: [u8; 12] = [
            packet[1],
            packet[2],
            packet[3],
            packet[4],
            packet[5],
            packet[6],
            packet[7],
            packet[8],
            packet[9],
            packet[10],
            packet[11],
            packet[12],
        ];
        let axes: [i16; 8] = [
            read_i16_le(packet[13], packet[14]),
            read_i16_le(packet[15], packet[16]),
            read_i16_le(packet[17], packet[18]),
            read_i16_le(packet[19], packet[20]),
            read_i16_le(packet[21], packet[22]),
            read_i16_le(packet[23], packet[24]),
            read_i16_le(packet[25], packet[26]),
            read_i16_le(packet[27], packet[28]),
        ];
        assert(buttons@ =~= legacy_buttons(packet@));
        assert(axes@ =~= legacy_axes(packet@));
        Some(LegacySnapshot { buttons, axes })
    } else {
        None
    }
}

/// Decodes one datagram of the older layout into its batch, which ends with
/// the end-of-batch marker. A dropped datagram gives an empty batch.
pub fn decode_legacy_snapshot(packet: &[u8]) -> (events: Vec<SemanticEvent>)
    ensures
        events@ == legacy_snapshot_events(packet@),
{
    match parse_legacy_snapshot(packet) {
        Some(snapshot) => process_gamepad_snapshot(&snapshot.buttons, &snapshot.axes),
        None => Vec::new(),
    }
}

/// Sync trailer on the older layout: the batch of a snapshot holds
/// twenty-one events, ends with the end-of-batch marker and holds no other.
pub proof fn lemma_legacy_batch_ends_with_one_sync(buttons: Seq<u8>, axes: Seq<i16>)
    ensures
        ({
            let batch = legacy_batch(buttons, axes);
            &&& batch.len() == 21
            &&& batch.last() == SemanticEvent::Sync
            &&& forall|i: int| 0 <= i < batch.len() - 1 ==> #[trigger] batch[i] != SemanticEvent::Sync
        }),
{
    let body = legacy_events(buttons, axes);
    let batch = legacy_batch(buttons, axes);
    assert(body.len() == 20);
    assert(batch == body.push(SemanticEvent::Sync));
    assert forall|i: int| 0 <= i < batch.len() - 1 implies #[trigger] batch[i]
        != SemanticEvent::Sync by {
        assert(batch[i] == body[i]);
        if i < 12 {
            assert(body[i] == legacy_button_events(buttons)[i]);
        } else {
            assert(body[i] == legacy_axis_events(axes)[i - 12]);
        }
    }
}

/// A dropped datagram of the older layout gives no event at all; a decoded
/// one gives a batch that ends with the one end-of-batch marker.
pub proof fn lemma_legacy_snapshot_is_sealed(packet: Seq<u8>)
    ensures
        ({
            let batch = legacy_snapshot_events(packet);
            batch.len() > 0 ==> {
                &&& batch.last() == SemanticEvent::Sync
                &&& forall|i: int| 0 <= i < batch.len() - 1 ==> #[trigger] batch[i] != SemanticEvent::Sync
            }
        }),
{
    if legacy_snapshot_accepted(packet) {
        lemma_legacy_batch_ends_with_one_sync(legacy_buttons(packet), legacy_axes(packet));
    }
}

} // verus!
