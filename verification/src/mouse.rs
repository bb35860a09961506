//! The pointer datagram: relative movement, wheel and three buttons.
//!
//! Layout: header, dx (2 bytes), dy (2 bytes), button mask, then an optional
//! wheel field (2 bytes). Numbers are signed and little-endian. A datagram of
//! fewer than seven bytes, or with another header, is dropped.

use vstd::prelude::*;
use crate::codes::{BTN_LEFT, BTN_MIDDLE, BTN_RIGHT, REL_WHEEL, REL_X, REL_Y};
use crate::codes::{btn_left, btn_middle, btn_right, rel_wheel, rel_x, rel_y};
use crate::event::SemanticEvent;
use crate::protocol::{HEADER_MOUSE, i16_le, read_i16_le};

verus! {

/// Bit of the left button in the button mask.
pub const BTN_MASK_LEFT: u8 = 0x01;

/// Bit of the right button in the button mask.
pub const BTN_MASK_RIGHT: u8 = 0x02;

/// Bit of the middle button in the button mask.
pub const BTN_MASK_MIDDLE: u8 = 0x04;

/// Shortest datagram that is decoded.
pub const MOUSE_MIN_LEN: usize = 7;

/// Length from which a datagram carries the wheel field.
pub const MOUSE_WHEEL_LEN: usize = 8;

/// Whether a datagram is decoded at all.
pub open spec fn mouse_packet_accepted(packet: Seq<u8>) -> bool {
    packet.len() >= MOUSE_MIN_LEN && packet[0] == HEADER_MOUSE
}

pub open spec fn mouse_dx(packet: Seq<u8>) -> int {
    i16_le(packet[1], packet[2])
}

pub open spec fn mouse_dy(packet: Seq<u8>) -> int {
    i16_le(packet[3], packet[4])
}

pub open spec fn mouse_buttons(packet: Seq<u8>) -> u8 {
    packet[5]
}

/// The wheel field, or 0 where the datagram is too short to carry one.
pub open spec fn mouse_wheel(packet: Seq<u8>) -> int {
    if packet.len() >= MOUSE_WHEEL_LEN {
        i16_le(packet[6], packet[7])
    } else {
        0
    }
}

pub open spec fn bit_is_set(mask: u8, bit: u8) -> bool {
    mask & bit != 0
}

/// A movement is reported only when it is not zero.
pub open spec fn motion_events(code: u16, delta: int) -> Seq<SemanticEvent> {
    if delta != 0 {
        seq![SemanticEvent::RelativeAxis { code, delta: delta as i32 }]
    } else {
        Seq::empty()
    }
}

/// A button is reported only when its bit differs from the mask held before.
pub open spec fn button_edge_events(code: u16, bit: u8, held: u8, now: u8) -> Seq<SemanticEvent> {
    if bit_is_set(held, bit) != bit_is_set(now, bit) {
        seq![SemanticEvent::Key { code, pressed: bit_is_set(now, bit) }]
    } else {
        Seq::empty()
    }
}

/// The batch that a datagram gives while `held` is the mask of the last
/// decoded datagram: x, y and wheel movement, then left, right and middle.
pub open spec fn mouse_events(packet: Seq<u8>, held: u8) -> Seq<SemanticEvent> {
    if mouse_packet_accepted(packet) {
        let now = mouse_buttons(packet);
        motion_events(REL_X, mouse_dx(packet)) + motion_events(REL_Y, mouse_dy(packet))
            + motion_events(REL_WHEEL, mouse_wheel(packet)) + button_edge_events(
            BTN_LEFT,
            BTN_MASK_LEFT,
            held,
            now,
        ) + button_edge_events(BTN_RIGHT, BTN_MASK_RIGHT, held, now) + button_edge_events(
            BTN_MIDDLE,
            BTN_MASK_MIDDLE,
            held,
            now,
        )
    } else {
        Seq::empty()
    }
}

/// The mask held after a datagram: its own mask if it was decoded, else the
/// mask held before.
pub open spec fn mouse_held_after(packet: Seq<u8>, held: u8) -> u8 {
    if mouse_packet_accepted(packet) {
        mouse_buttons(packet)
    } else {
        held
    }
}

/// The fields of one pointer datagram.
#[derive(Debug, Clone, Copy, PartialEq, Eq, Structural)]
pub struct MousePacket {
    pub dx: i16,
    pub dy: i16,
    pub buttons: u8,
    pub wheel: i16,
}

/// Reads the fields off a datagram, or drops it.
pub fn parse_mouse_packet(packet: &[u8]) -> (parsed: Option<MousePacket>)
    ensures
        parsed is Some <==> mouse_packet_accepted(packet@),
        parsed matches Some(fields) ==> {
            &&& fields.dx == mouse_dx(packet@)
            &&& fields.dy == mouse_dy(packet@)
            &&& fields.buttons == mouse_buttons(packet@)
            &&& fields.wheel == mouse_wheel(packet@)
        },
{
    if packet.len() >= MOUSE_MIN_LEN && packet[0] == HEADER_MOUSE {
        let wheel: i16 = if packet.len() >= MOUSE_WHEEL_LEN {
            read_i16_le(packet[6], packet[7])
        } else {
            0
        };
        Some(
            MousePacket {
                dx: read_i16_le(packet[1], packet[2]),
                dy: read_i16_le(packet[3], packet[4]),
                buttons: packet[5],
                wheel,
            },
        )
    } else {
        None
    }
}

fn push_motion(events: &mut Vec<SemanticEvent>, code: u16, delta: i16)
    ensures
        final(events)@ == old(events)@ + motion_events(code, delta as int),
{
    if delta != 0 {
        events.push(SemanticEvent::RelativeAxis { code, delta: delta as i32 });
    }
    assert(events@ =~= old(events)@ + motion_events(code, delta as int));
}

fn push_button_edge(events: &mut Vec<SemanticEvent>, code: u16, bit: u8, held: u8, now: u8)
    requires
        bit == BTN_MASK_LEFT || bit == BTN_MASK_RIGHT || bit == BTN_MASK_MIDDLE,
    ensures
        final(events)@ == old(events)@ + button_edge_events(code, bit, held, now),
{
    let changed: u8 = now ^ held;
    assert(((now ^ held) & bit != 0) <==> ((held & bit != 0) != (now & bit != 0))) by (bit_vector)
        requires
            bit == 0x01u8 || bit == 0x02u8 || bit == 0x04u8,
    ;
    if changed & bit != 0 {
        events.push(SemanticEvent::Key { code, pressed: now & bit != 0 });
    }
    assert(events@ =~= old(events)@ + button_edge_events(code, bit, held, now));
}

/// Decoder of the pointer channel. It remembers the button mask of the last
/// decoded datagram, so that a held button is reported once.
pub struct MouseDecoder {
    pub held: u8,
}

impl MouseDecoder {
    /// A decoder that has seen no button down.
    pub fn new() -> (decoder: MouseDecoder)
        ensures
            decoder.held == 0,
    {
        MouseDecoder { held: 0 }
    }

    /// Decodes one datagram into its batch of events, which may be empty.
    pub fn decode(&mut self, packet: &[u8]) -> (events: Vec<SemanticEvent>)
        ensures
            events@ == mouse_events(packet@, old(self).held),
            final(self).held == mouse_held_after(packet@, old(self).held),
    {
        let mut events: Vec<SemanticEvent> = Vec::new();
        match parse_mouse_packet(packet) {
            Some(fields) => {
                let held: u8 = self.held;
                let now: u8 = fields.buttons;
                push_motion(&mut events, rel_x(), fields.dx);
                push_motion(&mut events, rel_y(), fields.dy);
                push_motion(&mut events, rel_wheel(), fields.wheel);
                push_button_edge(&mut events, btn_left(), BTN_MASK_LEFT, held, now);
                push_button_edge(&mut events, btn_right(), BTN_MASK_RIGHT, held, now);
                push_button_edge(&mut events, btn_middle(), BTN_MASK_MIDDLE, held, now);
                self.held = now;
                assert(events@ =~= mouse_events(packet@, held));
            },
            None => {},
        }
        events
    }
}

/// A datagram without a wheel field gives no wheel event, whatever else it
/// holds.
pub proof fn lemma_short_packet_has_no_wheel(packet: Seq<u8>, held: u8)
    requires
        packet.len() < MOUSE_WHEEL_LEN,
    ensures
        forall|i: int|
            0 <= i < mouse_events(packet, held).len() ==> !(#[trigger] mouse_events(packet, held)[i]
                matches SemanticEvent::RelativeAxis { code, .. } && code == REL_WHEEL),
{
}

/// A datagram with a wheel field that is not zero gives exactly one wheel
/// event, and it carries the field's value.
pub proof fn lemma_wheel_is_reported_once(packet: Seq<u8>, held: u8)
    requires
        mouse_packet_accepted(packet),
        packet.len() >= MOUSE_WHEEL_LEN,
        mouse_wheel(packet) != 0,
    ensures
        mouse_events(packet, held).filter(
            |e: SemanticEvent| e matches SemanticEvent::RelativeAxis { code, .. } && code == REL_WHEEL,
        ) == seq![
            SemanticEvent::RelativeAxis { code: REL_WHEEL, delta: mouse_wheel(packet) as i32 },
        ],
{
    let is_wheel = |e: SemanticEvent|
        e matches SemanticEvent::RelativeAxis { code, .. } && code == REL_WHEEL;
    let now = mouse_buttons(packet);
    let a = motion_events(REL_X, mouse_dx(packet));
    let b = motion_events(REL_Y, mouse_dy(packet));
    let c = motion_events(REL_WHEEL, mouse_wheel(packet));
    let d = button_edge_events(BTN_LEFT, BTN_MASK_LEFT, held, now);
    let e = button_edge_events(BTN_RIGHT, BTN_MASK_RIGHT, held, now);
    let f = button_edge_events(BTN_MIDDLE, BTN_MASK_MIDDLE, held, now);
    lemma_filter_at_most_one(a, is_wheel);
    lemma_filter_at_most_one(b, is_wheel);
    lemma_filter_at_most_one(c, is_wheel);
    lemma_filter_at_most_one(d, is_wheel);
    lemma_filter_at_most_one(e, is_wheel);
    lemma_filter_at_most_one(f, is_wheel);
    Seq::filter_distributes_over_add(a, b, is_wheel);
    Seq::filter_distributes_over_add(a + b, c, is_wheel);
    Seq::filter_distributes_over_add(a + b + c, d, is_wheel);
    Seq::filter_distributes_over_add(a + b + c + d, e, is_wheel);
    Seq::filter_distributes_over_add(a + b + c + d + e, f, is_wheel);
    assert(mouse_events(packet, held).filter(is_wheel) =~= seq![
        SemanticEvent::RelativeAxis { code: REL_WHEEL, delta: mouse_wheel(packet) as i32 },
    ]);
}

/// Filtering a sequence of at most one element keeps it or empties it.
proof fn lemma_filter_at_most_one(s: Seq<SemanticEvent>, keep: spec_fn(SemanticEvent) -> bool)
    requires
        s.len() <= 1,
    ensures
        s.len() == 0 ==> s.filter(keep) == Seq::<SemanticEvent>::empty(),
        s.len() == 1 && keep(s[0]) ==> s.filter(keep) == s,
        s.len() == 1 && !keep(s[0]) ==> s.filter(keep) == Seq::<SemanticEvent>::empty(),
{
    reveal(Seq::filter);
    if s.len() == 1 {
        assert(s.drop_last() =~= Seq::<SemanticEvent>::empty());
        assert(s.drop_last().filter(keep) =~= Seq::<SemanticEvent>::empty());
        assert(s =~= Seq::<SemanticEvent>::empty().push(s.last()));
    }
}

/// While the mask does not change, no button event is produced.
pub proof fn lemma_held_buttons_are_silent(packet: Seq<u8>, held: u8)
    requires
        mouse_packet_accepted(packet),
        mouse_buttons(packet) == held,
    ensures
        forall|i: int|
            0 <= i < mouse_events(packet, held).len() ==> !(#[trigger] mouse_events(packet, held)[i]
                is Key),
{
}

} // verus!
