use vstd::prelude::*;
use crate::synth::round_div;

verus! {

/// The two paddle contacts.
#[derive(Debug, Clone, Copy, PartialEq, Eq, Structural)]
pub enum Paddle {
    Dit,
    Dah,
}

/// An input event, as framed from a control message.
#[derive(Debug, Clone, Copy, PartialEq, Eq, Structural)]
pub enum InputEvent {
    PaddleChanged { which: Paddle, pressed: bool },
    SpeedChanged { raw: u8 },
}

/// Status nibble of a note-on message.
pub const NOTE_ON: u8 = 0x90;

/// Status nibble of a note-off message.
pub const NOTE_OFF: u8 = 0x80;

/// Status nibble of a control-change message.
pub const CONTROL_CHANGE: u8 = 0xB0;

/// The controller number that sets the speed.
pub const SPEED_CONTROLLER: u8 = 0x3D;

/// The speed for a raw control value: `6 + round(42 * raw / 127)`.
pub open spec fn spec_wpm_from_control(raw: int) -> int {
    6 + round_div(42 * raw, 127)
}

/// The event that a control message carries: notes 1 and 2 are the dit and
/// dah paddles (pressed on a note-on of non-zero velocity), and the speed
/// controller's value is a raw speed. Anything else, or a message of fewer
/// than three bytes, carries none.
pub open spec fn spec_parse_message(m: Seq<u8>) -> Option<InputEvent> {
    if m.len() < 3 {
        None
    } else {
        let kind = m[0] & 0xF0u8;
        let note = m[1];
        let value = m[2];
        if (kind == NOTE_ON || kind == NOTE_OFF) && (note == 1 || note == 2) {
            Some(
                InputEvent::PaddleChanged {
                    which: if note == 1 {
                        Paddle::Dit
                    } else {
                        Paddle::Dah
                    },
                    pressed: kind == NOTE_ON && value > 0,
                },
            )
        } else if kind == CONTROL_CHANGE && note == SPEED_CONTROLLER {
            Some(InputEvent::SpeedChanged { raw: value })
        } else {
            None
        }
    }
}

/// Maps a raw control value to words per minute; values up to 127 give 6 to 48.
pub fn wpm_from_control(raw: u8) -> (r: usize)
    ensures
        r == spec_wpm_from_control(raw as int),
        raw <= 127 ==> 6 <= r <= 48,
        6 <= r <= 90,
{
    let r = 6 + (84 * (raw as usize) + 127) / 254;
    assert(raw <= 127 ==> (84 * (raw as int) + 127) / 254 <= 42) by (nonlinear_arith);
    assert((84 * (raw as int) + 127) / 254 <= 84) by (nonlinear_arith)
        requires
            raw <= 255,
    ;
    r
}

/// Frames a control message into an input event.
pub fn parse_message(message: &[u8]) -> (r: Option<InputEvent>)
    ensures
        r == spec_parse_message(message@),
{
    if message.len() < 3 {
        return None;
    }
    let kind = message[0] & 0xF0u8;
    let note = message[1];
    let value = message[2];
    if (kind == NOTE_ON || kind == NOTE_OFF) && (note == 1 || note == 2) {
        let which = if note == 1 {
            Paddle::Dit
        } else {
            Paddle::Dah
        };
        Some(InputEvent::PaddleChanged { which, pressed: kind == NOTE_ON && value > 0 })
    } else if kind == CONTROL_CHANGE && note == SPEED_CONTROLLER {
        Some(InputEvent::SpeedChanged { raw: value })
    } else {
        None
    }
}

} // verus!
