//! The gamepad snapshot datagram: every button and axis at one instant.
//!
//! Layout: header, two bytes of button bits, then eight signed little-endian
//! 16-bit axis values in the order of the controller layout. A datagram of
//! fewer than nineteen bytes, or with another header, is dropped.
//!
//! Two kinds of client exist. One sends only the extreme stick values, to
//! stand for eight digital directions; the other sends true magnitudes. The
//! first snapshot that is decoded settles which kind is assumed from then on.

use vstd::prelude::*;
use crate::codes::{
    ABS_HAT0X, ABS_HAT0Y, ABS_RX, ABS_RY, ABS_RZ, ABS_X, ABS_Y, ABS_Z, BTN_THUMBL, BTN_THUMBR,
};
use crate::codes::{btn_thumbl, btn_thumbr};
use crate::event::SemanticEvent;
use crate::gamepad::{clamp_hat, hat_sign};
use crate::protocol::{HEADER_GAMEPAD_SNAPSHOT, i16_le, read_i16_le};
use crate::xbox360_layout::Xbox360Layout;

verus! {

/// Shortest datagram that is decoded.
pub const SNAPSHOT_MIN_LEN: usize = 19;

/// Stick value from which the arcade policy reports a direction.
pub const ARCADE_HAT_THRESHOLD: i16 = 20000;

/// Trigger value above which the analog policy reports the trigger as down.
pub const TRIGGER_DIGITAL_THRESHOLD: i16 = 10;

/// The encoding that the clients of the snapshot channel are taken to use.
#[derive(Debug, Clone, Copy, PartialEq, Eq, Structural)]
pub enum GamepadWireMode {
    /// No snapshot has been decoded yet.
    Undetected,
    /// Sticks carry only extreme values.
    Arcade,
    /// Sticks carry true magnitudes.
    Analog,
}

/// The buttons and axes of one snapshot.
#[derive(Debug, Clone, Copy)]
pub struct Snapshot {
    /// Button states, in the order of the controller layout.
    pub buttons: [bool; 11],
    /// Axis values, in the order of the controller layout.
    pub axes: [i16; 8],
}

/// Whether a datagram is decoded at all.
pub open spec fn snapshot_accepted(packet: Seq<u8>) -> bool {
    packet.len() >= SNAPSHOT_MIN_LEN && packet[0] == HEADER_GAMEPAD_SNAPSHOT
}

/// The eleven button states of a datagram: bit `i` of the 16-bit mask, low
/// byte first, is button `i`.
pub open spec fn snapshot_buttons(packet: Seq<u8>) -> Seq<bool> {
    seq![
        packet[1] & 0x01 != 0,
        packet[1] & 0x02 != 0,
        packet[1] & 0x04 != 0,
        packet[1] & 0x08 != 0,
        packet[1] & 0x10 != 0,
        packet[1] & 0x20 != 0,
        packet[1] & 0x40 != 0,
        packet[1] & 0x80 != 0,
        packet[2] & 0x01 != 0,
        packet[2] & 0x02 != 0,
        packet[2] & 0x04 != 0,
    ]
}

/// The eight axis values of a datagram.
pub open spec fn snapshot_axes(packet: Seq<u8>) -> Seq<i16> {
    Seq::new(8, |i: int| i16_le(packet[3 + 2 * i], packet[4 + 2 * i]) as i16)
}

/// A stick value at either end of its range.
pub open spec fn is_extreme(value: i16) -> bool {
    value == -32768 || value == -32767 || value == 32767
}

/// The encoding that a first snapshot points to: arcade if either axis of
/// the left stick is at an extreme.
pub open spec fn detected_mode(axes: Seq<i16>) -> GamepadWireMode {
    if is_extreme(axes[0]) || is_extreme(axes[1]) {
        GamepadWireMode::Arcade
    } else {
        GamepadWireMode::Analog
    }
}

/// The encoding in force once a snapshot with these axes has been seen.
pub open spec fn latched_mode(mode: GamepadWireMode, axes: Seq<i16>) -> GamepadWireMode {
    if mode == GamepadWireMode::Undetected {
        detected_mode(axes)
    } else {
        mode
    }
}

/// The direction that the arcade policy reads off a stick value.
pub open spec fn arcade_hat(value: i16) -> int {
    if value <= -ARCADE_HAT_THRESHOLD {
        -1
    } else if value >= ARCADE_HAT_THRESHOLD {
        1
    } else {
        0
    }
}

pub open spec fn axis_event(code: u16, value: int) -> SemanticEvent {
    SemanticEvent::AbsoluteAxis { code, value: value as i32 }
}

/// Arcade policy: the left stick as it is and again as a direction, the
/// right stick and the triggers as they are, and last the pad axes by sign.
pub open spec fn arcade_events(axes: Seq<i16>) -> Seq<SemanticEvent> {
    seq![
        axis_event(ABS_X, axes[0] as int),
        axis_event(ABS_Y, axes[1] as int),
        axis_event(ABS_HAT0X, arcade_hat(axes[0])),
        axis_event(ABS_HAT0Y, arcade_hat(axes[1])),
        axis_event(ABS_RX, axes[2] as int),
        axis_event(ABS_RY, axes[3] as int),
        axis_event(ABS_Z, axes[4] as int),
        axis_event(ABS_RZ, axes[5] as int),
        axis_event(ABS_HAT0X, hat_sign(axes[6] as int)),
        axis_event(ABS_HAT0Y, hat_sign(axes[7] as int)),
    ]
}

/// Analog policy: sticks and triggers as they are, each trigger followed by
/// a button that is down above the threshold, and last the pad axes by sign.
pub open spec fn analog_events(axes: Seq<i16>) -> Seq<SemanticEvent> {
    seq![
        axis_event(ABS_X, axes[0] as int),
        axis_event(ABS_Y, axes[1] as int),
        axis_event(ABS_RX, axes[2] as int),
        axis_event(ABS_RY, axes[3] as int),
        axis_event(ABS_Z, axes[4] as int),
        SemanticEvent::Key { code: BTN_THUMBL, pressed: axes[4] > TRIGGER_DIGITAL_THRESHOLD },
        axis_event(ABS_RZ, axes[5] as int),
        SemanticEvent::Key { code: BTN_THUMBR, pressed: axes[5] > TRIGGER_DIGITAL_THRESHOLD },
        axis_event(ABS_HAT0X, hat_sign(axes[6] as int)),
        axis_event(ABS_HAT0Y, hat_sign(axes[7] as int)),
    ]
}

/// The axis events of a snapshot under the encoding in force.
pub open spec fn axes_events(mode: GamepadWireMode, axes: Seq<i16>) -> Seq<SemanticEvent> {
    if mode == GamepadWireMode::Arcade {
        arcade_events(axes)
    } else {
        analog_events(axes)
    }
}

/// One key event for each of the eleven buttons, in layout order.
pub open spec fn button_events(buttons: Seq<bool>) -> Seq<SemanticEvent> {
    Seq::new(
        11,
        |i: int|
            SemanticEvent::Key { code: Xbox360Layout::button_code_at(i)->0, pressed: buttons[i] },
    )
}

/// A batch as it is handed to the sink: a batch that is not empty is closed
/// by the end-of-batch marker, an empty one stays empty.
pub open spec fn sealed(events: Seq<SemanticEvent>) -> Seq<SemanticEvent> {
    if events.len() == 0 {
        events
    } else {
        events.push(SemanticEvent::Sync)
    }
}

/// The batch that a datagram gives while `mode` is the encoding settled so
/// far.
pub open spec fn snapshot_events(packet: Seq<u8>, mode: GamepadWireMode) -> Seq<SemanticEvent> {
    if snapshot_accepted(packet) {
        let axes = snapshot_axes(packet);
        sealed(button_events(snapshot_buttons(packet)) + axes_events(latched_mode(mode, axes), axes))
    } else {
        Seq::empty()
    }
}

/// The encoding settled once a datagram has been handled.
pub open spec fn snapshot_mode_after(packet: Seq<u8>, mode: GamepadWireMode) -> GamepadWireMode {
    if snapshot_accepted(packet) {
        latched_mode(mode, snapshot_axes(packet))
    } else {
        mode
    }
}

/// Reads the buttons and axes off a datagram, or drops it.
pub fn parse_gamepad_snapshot(buf: &[u8]) -> (parsed: Option<Snapshot>)
    ensures
        parsed is Some <==> snapshot_accepted(buf@),
        parsed matches Some(snapshot) ==> snapshot.buttons@ == snapshot_buttons(buf@)
            && snapshot.axes@ == snapshot_axes(buf@),
{
    if buf.len() >= SNAPSHOT_MIN_LEN && buf[0] == HEADER_GAMEPAD_SNAPSHOT {
        let lo: u8 = buf[1];
        let hi: u8 = buf[2];
        let buttons: [bool; 11] = [
            lo & 0x01 != 0,
            lo & 0x02 != 0,
            lo & 0x04 != 0,
            lo & 0x08 != 0,
            lo & 0x10 != 0,
            lo & 0x20 != 0,
            lo & 0x40 != 0,
            lo & 0x80 != 0,
            hi & 0x01 != 0,
            hi & 0x02 != 0,
            hi & 0x04 != 0,
        ];
        let axes: [i16; 8] = [
            read_i16_le(buf[3], buf[4]),
            read_i16_le(buf[5], buf[6]),
            read_i16_le(buf[7], buf[8]),
            read_i16_le(buf[9], buf[10]),
            read_i16_le(buf[11], buf[12]),
            read_i16_le(buf[13], buf[14]),
            read_i16_le(buf[15], buf[16]),
            read_i16_le(buf[17], buf[18]),
        ];
        assert(buttons@ =~= snapshot_buttons(buf@));
        assert(axes@ =~= snapshot_axes(buf@));
        Some(Snapshot { buttons, axes })
    } else {
        None
    }
}

/// Appends one key event for each button.
pub fn process_buttons(buttons: &[bool; 11], events: &mut Vec<SemanticEvent>)
    ensures
        final(events)@ == old(events)@ + button_events(buttons@),
{
    let mut i: usize = 0;
    while i < 11
        invariant
            i <= 11,
            events@.len() == old(events)@.len() + i,
            forall|k: int| 0 <= k < old(events)@.len() ==> events@[k] == old(events)@[k],
            forall|k: int|
                0 <= k < i ==> events@[old(events)@.len() + k] == button_events(buttons@)[k],
        decreases 11 - i,
    {
        if let Some(code) = Xbox360Layout::button_code(i) {
            events.push(SemanticEvent::Key { code, pressed: buttons[i] });
        }
        i += 1;
    }
    assert(events@ =~= old(events)@ + button_events(buttons@));
}

fn is_extreme_value(value: i16) -> (extreme: bool)
    ensures
        extreme == is_extreme(value),
{
    value == -32768 || value == -32767 || value == 32767
}

fn arcade_direction(value: i16) -> (direction: i32)
    ensures
        direction == arcade_hat(value),
{
    if value <= -ARCADE_HAT_THRESHOLD {
        -1
    } else if value >= ARCADE_HAT_THRESHOLD {
        1
    } else {
        0
    }
}

fn emit_axis(events: &mut Vec<SemanticEvent>, code: u16, value: i32)
    ensures
        final(events)@ == old(events)@.push(axis_event(code, value as int)),
{
    events.push(SemanticEvent::AbsoluteAxis { code, value });
}

/// Settles the encoding if it is not settled yet, then appends the axis
/// events of the snapshot under the encoding in force.
pub fn process_axes(mode: &mut GamepadWireMode, axes: &[i16; 8], events: &mut Vec<SemanticEvent>)
    ensures
        *final(mode) == latched_mode(*old(mode), axes@),
        final(events)@ == old(events)@ + axes_events(*final(mode), axes@),
{
    if *mode == GamepadWireMode::Undetected {
        if is_extreme_value(axes[0]) || is_extreme_value(axes[1]) {
            *mode = GamepadWireMode::Arcade;
        } else {
            *mode = GamepadWireMode::Analog;
        }
    }
    if *mode == GamepadWireMode::Arcade {
        emit_axis(events, ABS_X, axes[0] as i32);
        emit_axis(events, ABS_Y, axes[1] as i32);
        emit_axis(events, ABS_HAT0X, arcade_direction(axes[0]));
        emit_axis(events, ABS_HAT0Y, arcade_direction(axes[1]));
        emit_axis(events, ABS_RX, axes[2] as i32);
        emit_axis(events, ABS_RY, axes[3] as i32);
        emit_axis(events, ABS_Z, axes[4] as i32);
        emit_axis(events, ABS_RZ, axes[5] as i32);
        emit_axis(events, ABS_HAT0X, clamp_hat(axes[6]));
        emit_axis(events, ABS_HAT0Y, clamp_hat(axes[7]));
        assert(events@ =~= old(events)@ + arcade_events(axes@));
    } else {
        emit_axis(events, ABS_X, axes[0] as i32);
        emit_axis(events, ABS_Y, axes[1] as i32);
        emit_axis(events, ABS_RX, axes[2] as i32);
        emit_axis(events, ABS_RY, axes[3] as i32);
        emit_axis(events, ABS_Z, axes[4] as i32);
        events.push(
            SemanticEvent::Key { code: btn_thumbl(), pressed: axes[4] > TRIGGER_DIGITAL_THRESHOLD },
        );
        emit_axis(events, ABS_RZ, axes[5] as i32);
        events.push(
            SemanticEvent::Key { code: btn_thumbr(), pressed: axes[5] > TRIGGER_DIGITAL_THRESHOLD },
        );
        emit_axis(events, ABS_HAT0X, clamp_hat(axes[6]));
        emit_axis(events, ABS_HAT0Y, clamp_hat(axes[7]));
        assert(events@ =~= old(events)@ + analog_events(axes@));
    }
}

/// Closes a batch for the sink: appends the end-of-batch marker unless the
/// batch is empty.
pub fn finish_batch(events: Vec<SemanticEvent>) -> (batch: Vec<SemanticEvent>)
    ensures
        batch@ == sealed(events@),
{
    let mut batch = events;
    if batch.len() > 0 {
        batch.push(SemanticEvent::Sync);
    }
    batch
}

/// Decoder of the snapshot channel. It holds the encoding that the first
/// decoded snapshot settled.
pub struct SnapshotDecoder {
    pub mode: GamepadWireMode,
}

impl SnapshotDecoder {
    /// A decoder that has settled nothing yet.
    pub fn new() -> (decoder: SnapshotDecoder)
        ensures
            decoder.mode == GamepadWireMode::Undetected,
    {
        SnapshotDecoder { mode: GamepadWireMode::Undetected }
    }

    /// Decodes one datagram into its batch of events: buttons, then axes,
    /// then the end-of-batch marker. A dropped datagram gives an empty batch
    /// and settles nothing.
    pub fn decode(&mut self, packet: &[u8]) -> (events: Vec<SemanticEvent>)
        ensures
            events@ == snapshot_events(packet@, old(self).mode),
            final(self).mode == snapshot_mode_after(packet@, old(self).mode),
    {
        let mut events: Vec<SemanticEvent> = Vec::new();
        match parse_gamepad_snapshot(packet) {
            Some(snapshot) => {
                process_buttons(&snapshot.buttons, &mut events);
                let mut mode = self.mode;
                process_axes(&mut mode, &snapshot.axes, &mut events);
                self.mode = mode;
                assert(events@ =~= button_events(snapshot_buttons(packet@)) + axes_events(
                    mode,
                    snapshot_axes(packet@),
                ));
                finish_batch(events)
            },
            None => events,
        }
    }
}

/// The latch is sticky: once an encoding is settled, no later snapshot
/// changes it, and every later snapshot is read under it.
pub proof fn lemma_latch_is_sticky(mode: GamepadWireMode, first: Seq<u8>, later: Seq<u8>)
    requires
        snapshot_accepted(first),
    ensures
        snapshot_mode_after(first, mode) != GamepadWireMode::Undetected,
        snapshot_mode_after(later, snapshot_mode_after(first, mode)) == snapshot_mode_after(
            first,
            mode,
        ),
        mode == GamepadWireMode::Undetected && (is_extreme(snapshot_axes(first)[0]) || is_extreme(
            snapshot_axes(first)[1],
        )) ==> snapshot_mode_after(first, mode) == GamepadWireMode::Arcade,
        snapshot_accepted(later) && snapshot_mode_after(first, mode) == GamepadWireMode::Arcade
            ==> snapshot_events(later, snapshot_mode_after(first, mode)) == sealed(
            button_events(snapshot_buttons(later)) + arcade_events(snapshot_axes(later)),
        ),
{
}

/// Pad axes are reduced to their sign under both policies: the last two axis
/// events of a snapshot are the pad axes, carrying -1 below zero, 1 above
/// zero and 0 at zero.
pub proof fn lemma_hat_is_clamped(mode: GamepadWireMode, axes: Seq<i16>)
    requires
        axes.len() == 8,
    ensures
        axes_events(mode, axes).len() == 10,
        axes_events(mode, axes)[8] == axis_event(ABS_HAT0X, hat_sign(axes[6] as int)),
        axes_events(mode, axes)[9] == axis_event(ABS_HAT0Y, hat_sign(axes[7] as int)),
        forall|v: int| v < 0 ==> #[trigger] hat_sign(v) == -1,
        forall|v: int| v > 0 ==> #[trigger] hat_sign(v) == 1,
        hat_sign(0) == 0,
{
}

/// Sync trailer: a batch of the snapshot channel that is not empty ends
/// with the end-of-batch marker and holds no other.
pub proof fn lemma_batch_ends_with_one_sync(packet: Seq<u8>, mode: GamepadWireMode)
    ensures
        ({
            let batch = snapshot_events(packet, mode);
            batch.len() > 0 ==> {
                &&& batch.last() == SemanticEvent::Sync
                &&& forall|i: int| 0 <= i < batch.len() - 1 ==> #[trigger] batch[i] != SemanticEvent::Sync
            }
        }),
{
    if snapshot_accepted(packet) {
        let axes = snapshot_axes(packet);
        let body = button_events(snapshot_buttons(packet)) + axes_events(
            latched_mode(mode, axes),
            axes,
        );
        assert(body.len() == 21);
        let batch = snapshot_events(packet, mode);
        assert(batch == body.push(SemanticEvent::Sync));
        assert forall|i: int| 0 <= i < batch.len() - 1 implies #[trigger] batch[i]
            != SemanticEvent::Sync by {
            assert(batch[i] == body[i]);
            if i < 11 {
                assert(body[i] == button_events(snapshot_buttons(packet))[i]);
            } else {
                assert(body[i] == axes_events(latched_mode(mode, axes), axes)[i - 11]);
            }
        }
    }
}

} // verus!
