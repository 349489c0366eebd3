use vstd::prelude::*;

use crate::color::{color_named, Color};
use crate::constants::{
    FADE_COMMAND_ACTION, GET_VERSION_COMMAND_ACTION, IMMEDIATE_COMMAND_ACTION,
    PLAY_LOOP_COMMAND_ACTION, PLAY_STATE_READ_BACK_COMMAND_ACTION,
    READ_COLOR_PATTERN_LINE_COMMAND_ACTION, READ_EEPROM_LOCATION_COMMAND_ACTION,
    READ_RGB_COMMAND_ACTION, REPORT_ID, SAVE_COLOR_PATTERNS_COMMAND_ACTION,
    SERVER_TICKLE_COMMAND_ACTION, SET_COLOR_PATTERN_LINE_COMMAND_ACTION, SET_LED_N_COMMAND_ACTION,
    TEST_COMMAND_ACTION, WRITE_EEPROM_LOCATION_COMMAND_ACTION,
};

verus! {

/// A command for the device. Durations are in milliseconds.
#[derive(Debug, Clone, Copy, PartialEq, Eq, Structural)]
pub enum Message {
    Off,
    Fade(Color, u64, Option<u8>),
    Immediate(Color, Option<u8>),
    ReadRGB(u8),
    ServerTickle(bool, u8, u8, u8),
    PlayLoop(bool, u8, u8, u8),
    PlayStateRead,
    SetColorPattern(Color, u8, u8, u8),
    SaveColorPatterns,
    ReadColorPattern(u8),
    SetLedN(u8),
    ReadEEPROM(u8),
    WriteEEPROM(u8, u8),
    GetVersion,
    TestCommand,
}

/// An eight-byte report: the report identifier, the action byte, then six
/// argument bytes.
pub open spec fn report(action: u8, a: u8, b: u8, c: u8, d: u8, e: u8, f: u8) -> Seq<u8> {
    seq![REPORT_ID, action, a, b, c, d, e, f]
}

/// The fade time in device ticks of ten milliseconds, kept to sixteen bits.
pub open spec fn fade_ticks(duration_ms: u64) -> int {
    (duration_ms as int / 10) % 0x10000
}

/// High byte of the tick count.
pub open spec fn ticks_high(duration_ms: u64) -> u8 {
    (fade_ticks(duration_ms) / 0x100) as u8
}

/// Low byte of the tick count.
pub open spec fn ticks_low(duration_ms: u64) -> u8 {
    (fade_ticks(duration_ms) % 0x100) as u8
}

pub open spec fn flag_byte(on: bool) -> u8 {
    if on { 1 } else { 0 }
}

pub open spec fn index_byte(index: Option<u8>) -> u8 {
    match index {
        Some(i) => i,
        None => 0,
    }
}

impl Message {
    /// The bytes that the device is sent for this command.
    pub open spec fn spec_buffer(self) -> Seq<u8> {
        match self {
            Message::Off => {
                let (r, g, b) = Color::Three(0, 0, 0).spec_rgb();
                report(IMMEDIATE_COMMAND_ACTION, r, g, b, 0, 0, 0)
            },
            Message::Immediate(color, None) => {
                let (r, g, b) = color.spec_rgb();
                report(IMMEDIATE_COMMAND_ACTION, r, g, b, 0, 0, 0)
            },
            Message::Immediate(color, Some(i)) => {
                let (r, g, b) = color.spec_rgb();
                report(FADE_COMMAND_ACTION, r, g, b, ticks_high(0), ticks_low(0), i)
            },
            Message::Fade(color, ms, index) => {
                let (r, g, b) = color.spec_rgb();
                report(FADE_COMMAND_ACTION, r, g, b, ticks_high(ms), ticks_low(ms), index_byte(index))
            },
            Message::ReadRGB(n) => report(READ_RGB_COMMAND_ACTION, n, 0, 0, 0, 0, n),
            Message::ServerTickle(on, th, tl, st) => report(
                SERVER_TICKLE_COMMAND_ACTION,
                flag_byte(on),
                th,
                tl,
                st,
                0,
                0,
            ),
            Message::PlayLoop(on, sp, ep, count) => report(
                PLAY_LOOP_COMMAND_ACTION,
                flag_byte(on),
                sp,
                ep,
                count,
                0,
                0,
            ),
            Message::PlayStateRead => report(PLAY_STATE_READ_BACK_COMMAND_ACTION, 0, 0, 0, 0, 0, 0),
            Message::SetColorPattern(color, th, tl, pos) => {
                let (r, g, b) = color.spec_rgb();
                report(SET_COLOR_PATTERN_LINE_COMMAND_ACTION, r, g, b, th, tl, pos)
            },
            Message::SaveColorPatterns => report(SAVE_COLOR_PATTERNS_COMMAND_ACTION, 0, 0, 0, 0, 0, 0),
            Message::ReadColorPattern(pos) => report(
                READ_COLOR_PATTERN_LINE_COMMAND_ACTION,
                0,
                0,
                0,
                0,
                0,
                pos,
            ),
            Message::SetLedN(n) => report(SET_LED_N_COMMAND_ACTION, n, 0, 0, 0, 0, 0),
            Message::ReadEEPROM(addr) => report(READ_EEPROM_LOCATION_COMMAND_ACTION, addr, 0, 0, 0, 0, 0),
            Message::WriteEEPROM(addr, val) => report(
                WRITE_EEPROM_LOCATION_COMMAND_ACTION,
                addr,
                val,
                0,
                0,
                0,
                0,
            ),
            Message::GetVersion => report(GET_VERSION_COMMAND_ACTION, 0, 0, 0, 0, 0, 0),
            Message::TestCommand => report(TEST_COMMAND_ACTION, 0, 0, 0, 0, 0, 0),
        }
    }

    /// Encodes a fade. The tick count is `duration_ms / 10` kept to sixteen
    /// bits, sent as its high byte and then its low byte (`ticks % 0x100`).
    fn fade_buffer(color: &Color, duration_ms: u64, index: Option<u8>) -> (r: [u8; 8])
        ensures
            r@ == Message::Fade(*color, duration_ms, index).spec_buffer(),
    {
        let (r, g, b) = color.rgb();
        let ticks: u16 = ((duration_ms / 10) % 0x10000) as u16;
        let th: u8 = (ticks >> 8) as u8;
        let tl: u8 = (ticks % 0x100) as u8;
        assert(ticks >> 8 == ticks / 0x100) by (bit_vector);
        let n: u8 = match index {
            Some(i) => i,
            None => 0,
        };
        let out = [REPORT_ID, FADE_COMMAND_ACTION, r, g, b, th, tl, n];
        assert(out@ =~= Message::Fade(*color, duration_ms, index).spec_buffer());
        out
    }

    /// Encodes an immediate set of every LED.
    fn immediate_buffer(color: &Color) -> (r: [u8; 8])
        ensures
            r@ == Message::Immediate(*color, None).spec_buffer(),
    {
        let (r, g, b) = color.rgb();
        let out = [REPORT_ID, IMMEDIATE_COMMAND_ACTION, r, g, b, 0x00, 0x00, 0x00];
        assert(out@ =~= Message::Immediate(*color, None).spec_buffer());
        out
    }

    /// Returns the buffer that is written to the device for this command.
    ///
    /// An indexed immediate set has no opcode of its own on the device; it is
    /// sent as a fade of zero duration to that LED.
    pub fn buffer(&self) -> (r: [u8; 8])
        ensures
            r@ == self.spec_buffer(),
            r@.len() == 8,
            r[0] == REPORT_ID,
    {
        let out: [u8; 8] = match self {
            Message::Off => Message::immediate_buffer(&Color::Three(0x00, 0x00, 0x00)),
            Message::Fade(color, duration_ms, index) => Message::fade_buffer(color, *duration_ms, *index),
            Message::Immediate(color, Some(index)) => Message::fade_buffer(color, 0, Some(*index)),
            Message::Immediate(color, None) => Message::immediate_buffer(color),
            Message::ReadRGB(n) => [REPORT_ID, READ_RGB_COMMAND_ACTION, *n, 0x00, 0x00, 0x00, 0x00, *n],
            Message::ServerTickle(on, th, tl, st) => {
                let flag: u8 = if *on { 1 } else { 0 };
                [REPORT_ID, SERVER_TICKLE_COMMAND_ACTION, flag, *th, *tl, *st, 0x00, 0x00]
            },
            Message::PlayLoop(on, start_pos, end_pos, count) => {
                let flag: u8 = if *on { 1 } else { 0 };
                [REPORT_ID, PLAY_LOOP_COMMAND_ACTION, flag, *start_pos, *end_pos, *count, 0x00, 0x00]
            },
            Message::PlayStateRead => {
                [REPORT_ID, PLAY_STATE_READ_BACK_COMMAND_ACTION, 0x00, 0x00, 0x00, 0x00, 0x00, 0x00]
            },
            Message::SetColorPattern(color, time_high, time_low, pos) => {
                let (r, g, b) = color.rgb();
                [REPORT_ID, SET_COLOR_PATTERN_LINE_COMMAND_ACTION, r, g, b, *time_high, *time_low, *pos]
            },
            Message::SaveColorPatterns => {
                [REPORT_ID, SAVE_COLOR_PATTERNS_COMMAND_ACTION, 0x00, 0x00, 0x00, 0x00, 0x00, 0x00]
            },
            Message::ReadColorPattern(pos) => {
                [REPORT_ID, READ_COLOR_PATTERN_LINE_COMMAND_ACTION, 0x00, 0x00, 0x00, 0x00, 0x00, *pos]
            },
            Message::SetLedN(n) => [REPORT_ID, SET_LED_N_COMMAND_ACTION, *n, 0x00, 0x00, 0x00, 0x00, 0x00],
            Message::ReadEEPROM(addr) => {
                [REPORT_ID, READ_EEPROM_LOCATION_COMMAND_ACTION, *addr, 0x00, 0x00, 0x00, 0x00, 0x00]
            },
            Message::WriteEEPROM(addr, val) => {
                [REPORT_ID, WRITE_EEPROM_LOCATION_COMMAND_ACTION, *addr, *val, 0x00, 0x00, 0x00, 0x00]
            },
            Message::GetVersion => {
                [REPORT_ID, GET_VERSION_COMMAND_ACTION, 0x00, 0x00, 0x00, 0x00, 0x00, 0x00]
            },
            Message::TestCommand => [REPORT_ID, TEST_COMMAND_ACTION, 0x00, 0x00, 0x00, 0x00, 0x00, 0x00],
        };
        assert(out@ =~= self.spec_buffer());
        out
    }
}

impl Default for Message {
    /// The default command turns the device off.
    fn default() -> (r: Message)
        ensures
            r == Message::Off,
    {
        Message::Off
    }
}

impl From<&str> for Message {
    /// An immediate set of every LED to the named color.
    fn from(name: &str) -> (r: Message)
        ensures
            r == Message::Immediate(color_named(name@), None),
    {
        Message::Immediate(Color::from(name), None)
    }
}

impl vstd::std_specs::convert::FromSpecImpl<&str> for Message {
    open spec fn obeys_from_spec() -> bool {
        true
    }

    open spec fn from_spec(name: &str) -> Message {
        Message::Immediate(color_named(name@), None)
    }
}

/// Every command encodes to eight bytes that start with the report identifier.
pub proof fn lemma_buffer_is_report(m: Message)
    ensures
        m.spec_buffer().len() == 8,
        m.spec_buffer()[0] == REPORT_ID,
{
}

/// Turning the device off sends the same bytes as setting every LED to black.
pub proof fn lemma_off_is_black()
    ensures
        Message::Off.spec_buffer() == Message::Immediate(Color::Three(0, 0, 0), None).spec_buffer(),
{
}

/// An immediate set of one LED is sent as a fade of zero duration to that LED,
/// and the LED index is the last byte.
pub proof fn lemma_indexed_immediate_is_instant_fade(color: Color, index: u8)
    ensures
        Message::Immediate(color, Some(index)).spec_buffer() == Message::Fade(
            color,
            0,
            Some(index),
        ).spec_buffer(),
        Message::Immediate(color, Some(index)).spec_buffer()[7] == index,
{
}

/// An immediate set of every LED ends in a zero index byte.
pub proof fn lemma_immediate_without_index(color: Color)
    ensures
        Message::Immediate(color, None).spec_buffer()[7] == 0,
{
}

/// Reading the color of LED `n` carries `n` both as the argument and as the
/// last byte.
pub proof fn lemma_read_rgb_index_twice(n: u8)
    ensures
        Message::ReadRGB(n).spec_buffer()[2] == n,
        Message::ReadRGB(n).spec_buffer()[7] == n,
{
}

/// A fade of `duration_ms` milliseconds takes `duration_ms / 10` ticks, kept to
/// sixteen bits: byte 5 is the high byte of that count and byte 6 its low byte.
pub proof fn lemma_fade_time_bytes(color: Color, duration_ms: u64, index: Option<u8>)
    ensures
        ({
            let ticks = (duration_ms / 10) % 0x10000;
            &&& Message::Fade(color, duration_ms, index).spec_buffer()[5] == ticks / 0x100
            &&& Message::Fade(color, duration_ms, index).spec_buffer()[6] == ticks % 0x100
        }),
{
}

} // verus!
