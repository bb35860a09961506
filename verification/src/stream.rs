//! The multiplexed byte stream: mode switches, keys and gamepad updates.
//!
//! A frame is one header byte followed by a payload whose length the header
//! alone decides. A header that is not known stands for a frame without
//! payload, which is skipped. A frame is always read off the stream in full;
//! whether it has any effect depends on the input mode.

use vstd::prelude::*;
use crate::event::SemanticEvent;
use crate::gamepad::{axis_update_events, button_update_events, push_axis_update, push_button_update};
use crate::input_mode::{InputMode, mode_after_switch, mode_of_byte, switch_reply_byte};
use crate::protocol::{
    HEADER_GAMEPAD_AXIS, HEADER_GAMEPAD_BUTTON, HEADER_KEYBOARD, HEADER_MODE_ACK, HEADER_MODE_SWITCH,
    MODE_REFUSED, i16_le, read_i16_le,
};

verus! {

/// Number of payload bytes that follow a header.
pub open spec fn payload_len(header: u8) -> nat {
    if header == HEADER_MODE_SWITCH {
        1
    } else if header == HEADER_KEYBOARD {
        2
    } else if header == HEADER_GAMEPAD_AXIS {
        3
    } else if header == HEADER_GAMEPAD_BUTTON {
        2
    } else {
        0
    }
}

/// Number of bytes of a whole frame, header included.
pub open spec fn frame_len(header: u8) -> nat {
    1 + payload_len(header)
}

/// The key code that a scancode stands for. Three scancodes that some
/// clients send in their own numbering are mapped; all others are key
/// codes already.
pub open spec fn mapped_key(scancode: u8) -> u16 {
    if scancode == 69 {
        12
    } else if scancode == 70 {
        13
    } else if scancode == 81 {
        78
    } else {
        scancode as u16
    }
}

/// The event of a key frame: the key is down while `state` is above zero.
pub open spec fn keyboard_event(scancode: u8, state: u8) -> SemanticEvent {
    SemanticEvent::Key { code: mapped_key(scancode), pressed: state > 0 }
}

/// Whether `s` starts with a whole frame.
pub open spec fn frame_complete(s: Seq<u8>) -> bool {
    s.len() >= 1 && s.len() >= frame_len(s[0])
}

/// Number of bytes that the first frame of `s` takes: 0 while it is not
/// whole.
pub open spec fn frame_consumed(s: Seq<u8>) -> nat {
    if frame_complete(s) {
        frame_len(s[0])
    } else {
        0
    }
}

/// The mode after the first frame of `s`.
pub open spec fn frame_mode(s: Seq<u8>, mode: InputMode) -> InputMode {
    if frame_complete(s) && s[0] == HEADER_MODE_SWITCH {
        mode_after_switch(mode, s[1])
    } else {
        mode
    }
}

/// The bytes to send back after the first frame of `s`: two bytes after a
/// mode switch, none otherwise.
pub open spec fn frame_reply(s: Seq<u8>) -> Seq<u8> {
    if frame_complete(s) && s[0] == HEADER_MODE_SWITCH {
        seq![HEADER_MODE_ACK, switch_reply_byte(s[1])]
    } else {
        Seq::empty()
    }
}

/// The events of the first frame of `s` while the mode is `mode`.
pub open spec fn frame_events(s: Seq<u8>, mode: InputMode) -> Seq<SemanticEvent> {
    if !frame_complete(s) {
        Seq::empty()
    } else if s[0] == HEADER_KEYBOARD && mode == InputMode::MouseKeyboard {
        seq![keyboard_event(s[1], s[2])]
    } else if s[0] == HEADER_GAMEPAD_AXIS && mode == InputMode::Gamepad {
        axis_update_events(s[1] as int, i16_le(s[2], s[3]))
    } else if s[0] == HEADER_GAMEPAD_BUTTON && mode == InputMode::Gamepad {
        button_update_events(s[1] as int, s[2])
    } else {
        Seq::empty()
    }
}

/// Number of bytes that the whole frames at the start of `s` take.
pub open spec fn stream_consumed(s: Seq<u8>) -> nat
    decreases s.len(),
{
    if frame_complete(s) {
        frame_len(s[0]) + stream_consumed(s.skip(frame_len(s[0]) as int))
    } else {
        0
    }
}

/// The mode after the whole frames at the start of `s`.
pub open spec fn stream_mode(s: Seq<u8>, mode: InputMode) -> InputMode
    decreases s.len(),
{
    if frame_complete(s) {
        stream_mode(s.skip(frame_len(s[0]) as int), frame_mode(s, mode))
    } else {
        mode
    }
}

/// The replies to the whole frames at the start of `s`, in order.
pub open spec fn stream_replies(s: Seq<u8>) -> Seq<u8>
    decreases s.len(),
{
    if frame_complete(s) {
        frame_reply(s) + stream_replies(s.skip(frame_len(s[0]) as int))
    } else {
        Seq::empty()
    }
}

/// The events of the whole frames at the start of `s`, in order, each frame
/// read in the mode that the frames before it left.
pub open spec fn stream_events(s: Seq<u8>, mode: InputMode) -> Seq<SemanticEvent>
    decreases s.len(),
{
    if frame_complete(s) {
        frame_events(s, mode) + stream_events(
            s.skip(frame_len(s[0]) as int),
            frame_mode(s, mode),
        )
    } else {
        Seq::empty()
    }
}

/// What is left of `s` from `cursor` on: nothing where `cursor` lies past
/// the end.
pub open spec fn remaining(s: Seq<u8>, cursor: int) -> Seq<u8> {
    if 0 <= cursor <= s.len() {
        s.skip(cursor)
    } else {
        Seq::empty()
    }
}

/// Number of payload bytes to read after `header`.
pub fn frame_payload_len(header: u8) -> (len: usize)
    ensures
        len == payload_len(header),
{
    if header == HEADER_MODE_SWITCH {
        1
    } else if header == HEADER_KEYBOARD {
        2
    } else if header == HEADER_GAMEPAD_AXIS {
        3
    } else if header == HEADER_GAMEPAD_BUTTON {
        2
    } else {
        0
    }
}

/// Maps a scancode to a key code.
pub fn map_keyboard_key(scancode: u8) -> (code: u16)
    ensures
        code == mapped_key(scancode),
{
    if scancode == 69 {
        12
    } else if scancode == 70 {
        13
    } else if scancode == 81 {
        78
    } else {
        scancode as u16
    }
}

/// Decodes the payload of a key frame.
pub fn process_keyboard_event(scancode: u8, state: u8) -> (event: SemanticEvent)
    ensures
        event == keyboard_event(scancode, state),
{
    SemanticEvent::Key { code: map_keyboard_key(scancode), pressed: state > 0 }
}

/// Why a read from the stream failed.
#[derive(Debug, Clone, Copy, PartialEq, Eq, Structural)]
pub enum ReadFailure {
    UnexpectedEof,
    ConnectionReset,
    ConnectionAborted,
    BrokenPipe,
    Other,
}

/// Whether a failed read means that the peer has gone: the handler then ends
/// without an error. Any other failure is an error of the connection.
pub fn is_connection_closed(failure: ReadFailure) -> (closed: bool)
    ensures
        closed == (failure != ReadFailure::Other),
{
    match failure {
        ReadFailure::UnexpectedEof => true,
        ReadFailure::ConnectionReset => true,
        ReadFailure::ConnectionAborted => true,
        ReadFailure::BrokenPipe => true,
        ReadFailure::Other => false,
    }
}

/// The effect of one frame.
pub struct FrameStep {
    /// Bytes taken off the stream: 0 where no whole frame was there.
    pub consumed: usize,
    /// Bytes to send back to the peer.
    pub reply: Option<[u8; 2]>,
    /// Events to hand to the sink.
    pub events: Vec<SemanticEvent>,
}

impl FrameStep {
    /// The reply as a sequence of bytes, empty where there is none.
    pub open spec fn reply_bytes(self) -> Seq<u8> {
        match self.reply {
            Some(bytes) => bytes@,
            None => Seq::empty(),
        }
    }
}

/// Decodes the frame that starts at `cursor`. While fewer bytes are there
/// than the frame needs, nothing is consumed and nothing happens.
pub fn next_frame(stream: &[u8], cursor: usize, mode: &mut InputMode) -> (step: FrameStep)
    ensures
        step.consumed == frame_consumed(remaining(stream@, cursor as int)),
        step.events@ == frame_events(remaining(stream@, cursor as int), *old(mode)),
        step.reply_bytes() == frame_reply(remaining(stream@, cursor as int)),
        *final(mode) == frame_mode(remaining(stream@, cursor as int), *old(mode)),
{
    let ghost rest = remaining(stream@, cursor as int);
    let mut events: Vec<SemanticEvent> = Vec::new();
    if cursor >= stream.len() {
        return FrameStep { consumed: 0, reply: None, events };
    }
    let header: u8 = stream[cursor];
    let needed: usize = frame_payload_len(header);
    let left: usize = stream.len() - cursor;
    if left - 1 < needed {
        return FrameStep { consumed: 0, reply: None, events };
    }
    assert(forall|i: int| 0 <= i < rest.len() ==> rest[i] == stream@[cursor + i]);
    let consumed: usize = 1 + needed;
    let mut reply: Option<[u8; 2]> = None;
    if header == HEADER_MODE_SWITCH {
        let answer = mode.switch(stream[cursor + 1]);
        assert(answer@ =~= frame_reply(rest));
        reply = Some(answer);
    } else if header == HEADER_KEYBOARD {
        if *mode == InputMode::MouseKeyboard {
            events.push(process_keyboard_event(stream[cursor + 1], stream[cursor + 2]));
        }
    } else if header == HEADER_GAMEPAD_AXIS {
        if *mode == InputMode::Gamepad {
            let value: i16 = read_i16_le(stream[cursor + 2], stream[cursor + 3]);
            let axis: u8 = stream[cursor + 1];
            push_axis_update(&mut events, axis as usize, value);
        }
    } else if header == HEADER_GAMEPAD_BUTTON {
        if *mode == InputMode::Gamepad {
            let button: u8 = stream[cursor + 1];
            push_button_update(&mut events, button as usize, stream[cursor + 2]);
        }
    }
    assert(events@ =~= frame_events(rest, *old(mode)));
    FrameStep { consumed, reply, events }
}

/// The effect of all the whole frames in a buffer.
pub struct StreamOutcome {
    /// Bytes taken by whole frames. What follows is the start of a frame
    /// that has not arrived in full.
    pub consumed: usize,
    /// Replies to send back to the peer, in order.
    pub replies: Vec<u8>,
    /// Events to hand to the sink, in order.
    pub events: Vec<SemanticEvent>,
}

/// Decodes every whole frame of `stream` in order, each in the mode that
/// the frames before it left.
pub fn decode_stream(stream: &[u8], mode: &mut InputMode) -> (outcome: StreamOutcome)
    ensures
        outcome.consumed == stream_consumed(stream@),
        outcome.replies@ == stream_replies(stream@),
        outcome.events@ == stream_events(stream@, *old(mode)),
        *final(mode) == stream_mode(stream@, *old(mode)),
{
    let mut cursor: usize = 0;
    let mut replies: Vec<u8> = Vec::new();
    let mut events: Vec<SemanticEvent> = Vec::new();
    assert(stream@.skip(0) =~= stream@);
    loop
        invariant
            cursor <= stream.len(),
            stream_consumed(stream@) == cursor + stream_consumed(stream@.skip(cursor as int)),
            stream_replies(stream@) == replies@ + stream_replies(stream@.skip(cursor as int)),
            stream_events(stream@, *old(mode)) == events@ + stream_events(
                stream@.skip(cursor as int),
                *mode,
            ),
            stream_mode(stream@, *old(mode)) == stream_mode(stream@.skip(cursor as int), *mode),
        ensures
            cursor == stream_consumed(stream@),
            replies@ == stream_replies(stream@),
            events@ == stream_events(stream@, *old(mode)),
            *mode == stream_mode(stream@, *old(mode)),
        decreases stream.len() - cursor,
    {
        let ghost rest = stream@.skip(cursor as int);
        let ghost mode_before = *mode;
        let ghost replies_before = replies@;
        let ghost events_before = events@;
        let mut step = next_frame(stream, cursor, mode);
        if step.consumed == 0 {
            assert(replies@ + Seq::<u8>::empty() =~= replies@);
            assert(events@ + Seq::<SemanticEvent>::empty() =~= events@);
            break;
        }
        let ghost after = rest.skip(step.consumed as int);
        assert(after =~= stream@.skip(cursor + step.consumed));
        match step.reply {
            Some(bytes) => {
                replies.push(bytes[0]);
                replies.push(bytes[1]);
            },
            None => {},
        }
        assert(replies@ =~= replies_before + frame_reply(rest));
        assert((replies_before + frame_reply(rest)) + stream_replies(after) =~= replies_before + (
            frame_reply(rest) + stream_replies(after)));
        let ghost step_events = step.events@;
        events.append(&mut step.events);
        assert((events_before + step_events) + stream_events(after, *mode) =~= events_before + (
            step_events + stream_events(after, *mode)));
        cursor = cursor + step.consumed;
    }
    StreamOutcome { consumed: cursor, replies, events }
}

/// Mode gating. A key frame that arrives in gamepad mode, and a gamepad
/// frame that arrives in mouse-and-keyboard mode, give no event, change no
/// mode and draw no reply, and still take exactly their own length off the
/// stream.
pub proof fn lemma_wrong_mode_frame_is_skipped(s: Seq<u8>, mode: InputMode)
    requires
        frame_complete(s),
        (s[0] == HEADER_KEYBOARD && mode == InputMode::Gamepad) || ((s[0] == HEADER_GAMEPAD_AXIS
            || s[0] == HEADER_GAMEPAD_BUTTON) && mode == InputMode::MouseKeyboard),
    ensures
        frame_events(s, mode) == Seq::<SemanticEvent>::empty(),
        frame_reply(s) == Seq::<u8>::empty(),
        frame_mode(s, mode) == mode,
        frame_consumed(s) == frame_len(s[0]),
        s[0] == HEADER_KEYBOARD ==> frame_consumed(s) == 3,
        s[0] == HEADER_GAMEPAD_AXIS ==> frame_consumed(s) == 4,
        s[0] == HEADER_GAMEPAD_BUTTON ==> frame_consumed(s) == 3,
{
}

/// A mode switch is acknowledged and takes effect for the frames behind it:
/// a known mode id is echoed and becomes the mode, any other byte is answered
/// with the refusal byte and leaves the mode as it was.
pub proof fn lemma_mode_switch_is_acknowledged(s: Seq<u8>, mode: InputMode)
    requires
        frame_complete(s),
        s[0] == HEADER_MODE_SWITCH,
    ensures
        frame_consumed(s) == 2,
        frame_events(s, mode) == Seq::<SemanticEvent>::empty(),
        mode_of_byte(s[1]) is Some ==> frame_reply(s) == seq![HEADER_MODE_ACK, s[1]] && frame_mode(
            s,
            mode,
        ) == mode_of_byte(s[1])->0,
        mode_of_byte(s[1]) is None ==> frame_reply(s) == seq![HEADER_MODE_ACK, MODE_REFUSED]
            && frame_mode(s, mode) == mode,
        stream_events(s, mode) == stream_events(s.skip(2), frame_mode(s, mode)),
{
    assert(frame_events(s, mode) + stream_events(s.skip(2), frame_mode(s, mode)) =~= stream_events(
        s.skip(2),
        frame_mode(s, mode),
    ));
}

/// Every whole frame is consumed: what a buffer leaves behind is not a whole
/// frame.
pub proof fn lemma_stream_leaves_no_whole_frame(s: Seq<u8>)
    ensures
        stream_consumed(s) <= s.len(),
        !frame_complete(s.skip(stream_consumed(s) as int)),
    decreases s.len(),
{
    if frame_complete(s) {
        let n = frame_len(s[0]) as int;
        lemma_stream_leaves_no_whole_frame(s.skip(n));
        assert(s.skip(n).skip(stream_consumed(s.skip(n)) as int) =~= s.skip(
            n + stream_consumed(s.skip(n)),
        ));
    } else {
        assert(s.skip(0) =~= s);
    }
}

} // verus!
