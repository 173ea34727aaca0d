//! The binary codec over caller-supplied buffers.

use vstd::prelude::*;
use crate::command::{Command, CommandView, Payload, Rgb};
use crate::error::CommandError;
use crate::wire::{be16, frame, from_be16, parse, rgb_at, rgb_bytes};
use crate::wire::{HEADER_CONSTANT, HEADER_HEALTH, HEADER_PULSE, HEADER_STREAM};

verus! {

/// Reads a colour from the first three bytes of `slice`.
pub fn try_read_colour(slice: &[u8]) -> (colour: Result<Rgb, CommandError>)
    ensures
        slice@.len() < 3 ==> colour == Err::<Rgb, CommandError>(CommandError::MalformedPayload),
        slice@.len() >= 3 ==> colour == Ok::<Rgb, CommandError>(rgb_at(slice@, 0)),
{
    if slice.len() < 3 {
        return Err(CommandError::MalformedPayload);
    }
    Ok((slice[0], slice[1], slice[2]))
}

/// Reads a big-endian 16-bit number from `slice`, which must hold exactly
/// its two bytes.
pub fn try_read_u16(slice: &[u8]) -> (value: Result<u16, CommandError>)
    ensures
        slice@.len() != 2 ==> value == Err::<u16, CommandError>(CommandError::MalformedPayload),
        slice@.len() == 2 ==> value == Ok::<u16, CommandError>(from_be16(slice@[0], slice@[1])),
{
    if slice.len() != 2 {
        return Err(CommandError::MalformedPayload);
    }
    let high: u16 = slice[0] as u16;
    let low: u16 = slice[1] as u16;
    Ok(high * 256 + low)
}

/// Writes `v` in big-endian order to the first two bytes of `buf` and
/// returns how many bytes that took; a shorter buffer is left untouched.
pub fn try_write_u16(v: u16, buf: &mut [u8]) -> (written: Result<usize, CommandError>)
    ensures
        old(buf)@.len() < 2 ==> written == Err::<usize, CommandError>(
            CommandError::BufferTooSmall,
        ) && final(buf)@ == old(buf)@,
        old(buf)@.len() >= 2 ==> written == Ok::<usize, CommandError>(2) && final(buf)@ == be16(v)
            + old(buf)@.subrange(2, old(buf)@.len() as int),
{
    if buf.len() < 2 {
        return Err(CommandError::BufferTooSmall);
    }
    buf[0] = (v / 256) as u8;
    buf[1] = (v % 256) as u8;
    Ok(2)
}

/// Writes the three channels of `colour` to the first three bytes of `buf`
/// and returns how many bytes that took; a shorter buffer is left untouched.
pub fn try_write_colour(colour: Rgb, buf: &mut [u8]) -> (written: Result<usize, CommandError>)
    ensures
        old(buf)@.len() < 3 ==> written == Err::<usize, CommandError>(
            CommandError::BufferTooSmall,
        ) && final(buf)@ == old(buf)@,
        old(buf)@.len() >= 3 ==> written == Ok::<usize, CommandError>(3) && final(buf)@
            == rgb_bytes(colour) + old(buf)@.subrange(3, old(buf)@.len() as int),
{
    if buf.len() < 3 {
        return Err(CommandError::BufferTooSmall);
    }
    buf[0] = colour.0;
    buf[1] = colour.1;
    buf[2] = colour.2;
    Ok(3)
}

/// Copies `src` over the first bytes of `dst`, which must be at least as
/// long.
fn copy_to_front(src: &[u8], dst: &mut [u8])
    requires
        src@.len() <= old(dst)@.len(),
    ensures
        final(dst)@ == src@ + old(dst)@.subrange(src@.len() as int, old(dst)@.len() as int),
{
    let n: usize = src.len();
    let mut i: usize = 0;
    while i < n
        invariant
            n == src@.len(),
            i <= n,
            dst@.len() == old(dst)@.len(),
            n <= dst@.len(),
            dst@ == src@.subrange(0, i as int) + old(dst)@.subrange(i as int, old(dst)@.len() as int),
        decreases n - i,
    {
        dst[i] = src[i];
        i += 1;
    }
}

impl<T: Payload> Command<T> {
    /// Whether a buffer of `capacity` bytes can hold the frame of this
    /// command.
    pub(crate) fn fits(&self, capacity: usize) -> (enough: bool)
        ensures
            enough == (self@.size() <= capacity),
    {
        match self {
            Command::Health => 1 <= capacity,
            Command::Constant { .. } => 6 <= capacity,
            Command::Stream(payload) => payload.as_bytes().len() < capacity,
            Command::Pulse { .. } => 12 <= capacity,
        }
    }

    /// Writes the frame of this command to the start of `buf` and returns
    /// its length.
    ///
    /// The capacity is checked before the first byte is written: a buffer
    /// that cannot hold the whole frame is left as it was.
    pub fn try_write_bytes(&self, buf: &mut [u8]) -> (written: Result<usize, CommandError>)
        ensures
            old(buf)@.len() < self@.size() ==> written == Err::<usize, CommandError>(
                CommandError::BufferTooSmall,
            ) && final(buf)@ == old(buf)@,
            old(buf)@.len() >= self@.size() ==> written == Ok::<usize, CommandError>(
                self@.size() as usize,
            ) && final(buf)@ == frame(self@) + old(buf)@.subrange(
                self@.size() as int,
                old(buf)@.len() as int,
            ),
    {
        if !self.fits(buf.len()) {
            return Err(CommandError::BufferTooSmall);
        }
        let len: usize = self.size_in_bytes();
        match self {
            Command::Health => {
                buf[0] = HEADER_HEALTH;
            },
            Command::Constant { led_count, colour } => {
                buf[0] = HEADER_CONSTANT;
                let (_, fields) = buf.split_at_mut(1);
                let (count, rest) = fields.split_at_mut(2);
                try_write_u16(*led_count, count)?;
                try_write_colour(*colour, rest)?;
            },
            Command::Stream(payload) => {
                buf[0] = HEADER_STREAM;
                let (_, body) = buf.split_at_mut(1);
                copy_to_front(payload.as_bytes(), body);
            },
            Command::Pulse { led_count, start, end, frames, period } => {
                buf[0] = HEADER_PULSE;
                let (_, fields) = buf.split_at_mut(1);
                let (count, rest) = fields.split_at_mut(2);
                let (first, rest) = rest.split_at_mut(3);
                let (last, rest) = rest.split_at_mut(3);
                let (steps, rest) = rest.split_at_mut(1);
                try_write_u16(*led_count, count)?;
                try_write_colour(*start, first)?;
                try_write_colour(*end, last)?;
                steps[0] = *frames;
                try_write_u16(*period, rest)?;
            },
        }
        Ok(len)
    }
}

/// Whether `decoded` is what `expected` says: the command that it gives,
/// whatever storage backs the payload, or the error that it gives.
pub open spec fn decodes<T: Payload>(
    decoded: Result<Command<T>, CommandError>,
    expected: Result<CommandView, CommandError>,
) -> bool {
    match expected {
        Ok(command) => decoded matches Ok(found) && found@ == command,
        Err(error) => decoded == Err::<Command<T>, CommandError>(error),
    }
}

/// Decoding one frame without copying and into a command of its own gives
/// the same: equal commands, or the same error.
pub proof fn lemma_decodings_agree<A: Payload, B: Payload>(
    bytes: Seq<u8>,
    one: Result<Command<A>, CommandError>,
    other: Result<Command<B>, CommandError>,
)
    requires
        decodes(one, parse(bytes)),
        decodes(other, parse(bytes)),
    ensures
        match (one, other) {
            (Ok(a), Ok(b)) => a@ == b@,
            (Err(a), Err(b)) => a == b,
            _ => false,
        },
{
}

/// The slice that holds exactly `bytes`.
pub open spec fn slice_of<'a>(bytes: Seq<u8>) -> &'a [u8] {
    choose|slice: &'a [u8]| slice@ == bytes
}

impl<'a> TryFrom<&'a [u8]> for Command<&'a [u8]> {
    type Error = CommandError;

    /// Decodes the frame at the start of `value` without copying: a stream
    /// borrows its payload from `value`.
    fn try_from(value: &'a [u8]) -> (decoded: Result<Self, CommandError>)
        ensures
            decodes(decoded, parse(value@)),
    {
        if value.is_empty() {
            return Err(CommandError::MalformedPayload);
        }
        let (header, buffer) = value.split_at(1);
        let kind: u8 = header[0];
        if kind == HEADER_STREAM {
            if buffer.len() % 3 != 0 {
                Err(CommandError::MalformedPayload)
            } else {
                proof {
                    assert(buffer =~= slice_of(value@.subrange(1, value@.len() as int)));
                }
                Ok(Command::Stream(buffer))
            }
        } else if kind == HEADER_CONSTANT {
            if buffer.len() < 5 {
                return Err(CommandError::MalformedPayload);
            }
            let led_count: u16 = try_read_u16(&buffer[0..2])?;
            let colour: Rgb = try_read_colour(&buffer[2..buffer.len()])?;
            Ok(Command::Constant { led_count, colour })
        } else if kind == HEADER_PULSE {
            if buffer.len() < 11 {
                return Err(CommandError::MalformedPayload);
            }
            let led_count: u16 = try_read_u16(&buffer[0..2])?;
            let start: Rgb = try_read_colour(&buffer[2..5])?;
            let end: Rgb = try_read_colour(&buffer[5..8])?;
            let frames: u8 = buffer[8];
            let period: u16 = try_read_u16(&buffer[9..11])?;
            Ok(Command::Pulse { led_count, start, end, frames, period })
        } else if kind == HEADER_HEALTH {
            Ok(Command::Health)
        } else {
            Err(CommandError::InvalidHeader)
        }
    }
}

impl<'a> vstd::std_specs::convert::TryFromSpecImpl<&'a [u8]> for Command<&'a [u8]> {
    open spec fn obeys_try_from_spec() -> bool {
        true
    }

    open spec fn try_from_spec(value: &'a [u8]) -> Result<Self, CommandError> {
        match parse(value@) {
            Ok(CommandView::Health) => Ok(Command::Health),
            Ok(CommandView::Constant { led_count, colour }) => Ok(
                Command::Constant { led_count, colour },
            ),
            Ok(CommandView::Stream(payload)) => Ok(Command::Stream(slice_of(payload))),
            Ok(CommandView::Pulse { led_count, start, end, frames, period }) => Ok(
                Command::Pulse { led_count, start, end, frames, period },
            ),
            Err(error) => Err(error),
        }
    }
}

} // verus!
