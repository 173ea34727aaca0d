//! The binary frame, stated mathematically.
//!
//! A frame is one ASCII header byte followed by the command's fields in
//! declaration order, multi-byte fields in big-endian order.

use vstd::prelude::*;
use crate::command::{CommandView, Rgb};
use crate::error::CommandError;

verus! {

/// Header byte of a health check: ASCII `h`.
pub const HEADER_HEALTH: u8 = 0x68;

/// Header byte of a constant fill: ASCII `c`.
pub const HEADER_CONSTANT: u8 = 0x63;

/// Header byte of a colour stream: ASCII `s`.
pub const HEADER_STREAM: u8 = 0x73;

/// Header byte of a pulse: ASCII `p`.
pub const HEADER_PULSE: u8 = 0x70;

/// The two bytes of `value`, most significant first.
pub open spec fn be16(value: u16) -> Seq<u8> {
    seq![(value / 256) as u8, (value % 256) as u8]
}

/// The number whose big-endian bytes are `high`, `low`.
pub open spec fn from_be16(high: u8, low: u8) -> u16 {
    (high * 256 + low) as u16
}

/// The three channels of `colour`: red, green, blue.
pub open spec fn rgb_bytes(colour: Rgb) -> Seq<u8> {
    seq![colour.0, colour.1, colour.2]
}

/// The colour held in the three bytes of `bytes` that start at `at`.
pub open spec fn rgb_at(bytes: Seq<u8>, at: int) -> Rgb {
    (bytes[at], bytes[at + 1], bytes[at + 2])
}

/// The header byte that announces `command`.
pub open spec fn header_of(command: CommandView) -> u8 {
    match command {
        CommandView::Health => HEADER_HEALTH,
        CommandView::Constant { .. } => HEADER_CONSTANT,
        CommandView::Stream(_) => HEADER_STREAM,
        CommandView::Pulse { .. } => HEADER_PULSE,
    }
}

/// What follows the header byte in the frame of `command`.
pub open spec fn payload_of(command: CommandView) -> Seq<u8> {
    match command {
        CommandView::Health => Seq::empty(),
        CommandView::Constant { led_count, colour } => be16(led_count) + rgb_bytes(colour),
        CommandView::Stream(payload) => payload,
        CommandView::Pulse { led_count, start, end, frames, period } => be16(led_count)
            + rgb_bytes(start) + rgb_bytes(end) + seq![frames] + be16(period),
    }
}

/// The binary frame of `command`.
pub open spec fn frame(command: CommandView) -> Seq<u8> {
    seq![header_of(command)] + payload_of(command)
}

/// The command that the frame `bytes` holds, or why it holds none.
///
/// Bytes beyond what a fixed-length command needs are ignored.
pub open spec fn parse(bytes: Seq<u8>) -> Result<CommandView, CommandError> {
    if bytes.len() == 0 {
        Err(CommandError::MalformedPayload)
    } else if bytes[0] == HEADER_HEALTH {
        Ok(CommandView::Health)
    } else if bytes[0] == HEADER_CONSTANT {
        if bytes.len() < 6 {
            Err(CommandError::MalformedPayload)
        } else {
            Ok(
                CommandView::Constant {
                    led_count: from_be16(bytes[1], bytes[2]),
                    colour: rgb_at(bytes, 3),
                },
            )
        }
    } else if bytes[0] == HEADER_STREAM {
        if (bytes.len() - 1) % 3 != 0 {
            Err(CommandError::MalformedPayload)
        } else {
            Ok(CommandView::Stream(bytes.subrange(1, bytes.len() as int)))
        }
    } else if bytes[0] == HEADER_PULSE {
        if bytes.len() < 12 {
            Err(CommandError::MalformedPayload)
        } else {
            Ok(
                CommandView::Pulse {
                    led_count: from_be16(bytes[1], bytes[2]),
                    start: rgb_at(bytes, 3),
                    end: rgb_at(bytes, 6),
                    frames: bytes[9],
                    period: from_be16(bytes[10], bytes[11]),
                },
            )
        }
    } else {
        Err(CommandError::InvalidHeader)
    }
}

/// The two bytes of `value`, most significant first.
pub fn be16_bytes(value: u16) -> (bytes: [u8; 2])
    ensures
        bytes@ == be16(value),
{
    let bytes: [u8; 2] = [(value / 256) as u8, (value % 256) as u8];
    assert(bytes@ =~= be16(value));
    bytes
}

/// Splitting a number into its big-endian bytes and joining them again gives
/// the number back.
pub proof fn lemma_be16_round_trip(value: u16)
    ensures
        be16(value).len() == 2,
        from_be16(be16(value)[0], be16(value)[1]) == value,
{
}

/// A frame is exactly as long as the size announced for its command.
pub proof fn lemma_frame_len(command: CommandView)
    ensures
        frame(command).len() == command.size(),
{
}

/// Decoding the frame of a valid command gives the command back, field for
/// field.
pub proof fn lemma_parse_frame(command: CommandView)
    requires
        command.valid(),
    ensures
        parse(frame(command)) == Ok::<CommandView, CommandError>(command),
{
    let bytes = frame(command);
    lemma_frame_len(command);
    match command {
        CommandView::Health => {},
        CommandView::Constant { led_count, colour } => {
            lemma_be16_round_trip(led_count);
        },
        CommandView::Stream(payload) => {
            assert(bytes.subrange(1, bytes.len() as int) =~= payload);
        },
        CommandView::Pulse { led_count, start, end, frames, period } => {
            lemma_be16_round_trip(led_count);
            lemma_be16_round_trip(period);
        },
    }
}

/// What follows the frame of a command of fixed length does not matter: the
/// command is decoded from the frame alone.
pub proof fn lemma_parse_ignores_rest(command: CommandView, rest: Seq<u8>)
    requires
        !(command is Stream),
    ensures
        parse(frame(command) + rest) == Ok::<CommandView, CommandError>(command),
{
    lemma_parse_frame(command);
}

/// Whatever a frame decodes to is a valid command: a stream is never
/// handed out with a broken triplet.
pub proof fn lemma_parse_valid(bytes: Seq<u8>)
    ensures
        parse(bytes) matches Ok(command) ==> command.valid(),
{
}

/// A frame whose first byte is none of the four headers is refused for its
/// header, whatever follows.
pub proof fn lemma_unknown_header(bytes: Seq<u8>)
    requires
        bytes.len() > 0,
        bytes[0] != HEADER_HEALTH,
        bytes[0] != HEADER_CONSTANT,
        bytes[0] != HEADER_STREAM,
        bytes[0] != HEADER_PULSE,
    ensures
        parse(bytes) == Err::<CommandView, CommandError>(CommandError::InvalidHeader),
{
}

} // verus!
