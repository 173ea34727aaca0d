//! Writing length-prefixed frames to a ring buffer.
//!
//! On this transport every frame is preceded by its own length as a
//! big-endian 16-bit number.

use vstd::prelude::*;
use ring_buffer::RingBuffer;
use crate::command::{Command, CommandView, Payload};
use crate::error::CommandError;
use crate::wire::{be16, be16_bytes, frame};
use crate::wire::{HEADER_CONSTANT, HEADER_HEALTH, HEADER_PULSE, HEADER_STREAM};

verus! {

/// `ring_buffer::RingBuffer`, a queue that is filled at the back and
/// emptied at the front. The verifier sees nothing inside it: what it
/// holds is spoken of through [`ring_contents`], and how much more it
/// holds before it has to grow through [`ring_room`].
#[verifier::external_type_specification]
#[verifier::external_body]
#[verifier::reject_recursive_types(T)]
pub struct ExRingBuffer<T>(ring_buffer::RingBuffer<T>);

/// The bytes queued in a ring buffer, from the front, which leaves first,
/// to the back.
pub uninterp spec fn ring_contents(buffer: RingBuffer<u8>) -> Seq<u8>;

/// The number of bytes that a ring buffer takes before it is full: its
/// capacity less the bytes queued.
pub uninterp spec fn ring_room(buffer: RingBuffer<u8>) -> nat;

/// `RingBuffer::len`. Trusted: the number it returns is the number of
/// bytes queued.
#[verifier::external_body]
fn ring_len(buffer: &RingBuffer<u8>) -> (len: usize)
    ensures
        len == ring_contents(*buffer).len(),
{
    buffer.len()
}

/// `RingBuffer::capacity`. Trusted: the number it returns, which the
/// buffer keeps as a field of its own and never lets fall below the number
/// of bytes queued, is that number and the room left.
#[verifier::external_body]
fn ring_capacity(buffer: &RingBuffer<u8>) -> (capacity: usize)
    ensures
        capacity == ring_contents(*buffer).len() + ring_room(*buffer),
{
    buffer.capacity()
}

/// `RingBuffer::push_back` on a buffer that is not full. Trusted: the byte
/// is queued at the back, the bytes before it stay as they were, in their
/// order, and the room left is one byte less. A full buffer is left out:
/// there the call grows the buffer, which can panic once the buffer has
/// been shrunk. The index that the call returns is dropped.
#[verifier::external_body]
fn ring_push_back(buffer: &mut RingBuffer<u8>, byte: u8)
    requires
        ring_room(*old(buffer)) > 0,
    ensures
        ring_contents(*final(buffer)) == ring_contents(*old(buffer)).push(byte),
        ring_room(*final(buffer)) == ring_room(*old(buffer)) - 1,
{
    buffer.push_back(byte);
}

/// What the transport carries for `command`: the length of its frame, cut
/// to sixteen bits, then the frame.
pub open spec fn prefixed_frame(command: CommandView) -> Seq<u8> {
    be16((command.size() % 0x1_0000) as u16) + frame(command)
}

/// Queues `bytes` behind what `writer` holds, which must have room for
/// them.
fn push_all(writer: &mut RingBuffer<u8>, bytes: &[u8])
    requires
        bytes@.len() <= ring_room(*old(writer)),
    ensures
        ring_contents(*final(writer)) == ring_contents(*old(writer)) + bytes@,
        ring_room(*final(writer)) == ring_room(*old(writer)) - bytes@.len(),
{
    let n: usize = bytes.len();
    let mut i: usize = 0;
    while i < n
        invariant
            n == bytes@.len(),
            i <= n,
            n <= ring_room(*old(writer)),
            ring_contents(*writer) == ring_contents(*old(writer)) + bytes@.subrange(0, i as int),
            ring_room(*writer) == ring_room(*old(writer)) - i,
        decreases n - i,
    {
        ring_push_back(writer, bytes[i]);
        i += 1;
    }
}

impl<T: Payload> Command<T> {
    /// Queues the length-prefixed frame of this command in `writer` and
    /// returns the length of the frame.
    ///
    /// The room is checked before the first byte is queued: where the
    /// buffer cannot take the prefix and the whole frame without growing,
    /// nothing is queued and the buffer is reported too small.
    pub fn write_bytes(&self, writer: &mut RingBuffer<u8>) -> (written: Result<usize, CommandError>)
        ensures
            ring_room(*old(writer)) < self@.size() + 2 ==> written == Err::<usize, CommandError>(
                CommandError::BufferTooSmall,
            ) && ring_contents(*final(writer)) == ring_contents(*old(writer)) && ring_room(
                *final(writer),
            ) == ring_room(*old(writer)),
            ring_room(*old(writer)) >= self@.size() + 2 ==> written == Ok::<usize, CommandError>(
                self@.size() as usize,
            ) && ring_contents(*final(writer)) == ring_contents(*old(writer)) + prefixed_frame(
                self@,
            ) && ring_room(*final(writer)) == ring_room(*old(writer)) - (self@.size() + 2),
    {
        let free: usize = ring_capacity(writer) - ring_len(writer);
        if free < 2 || !self.fits(free - 2) {
            return Err(CommandError::BufferTooSmall);
        }
        let size: usize = self.size_in_bytes();
        push_all(writer, &be16_bytes((size % 0x1_0000) as u16));
        match self {
            Command::Health => {
                push_all(writer, &[HEADER_HEALTH]);
            },
            Command::Constant { led_count, colour } => {
                push_all(writer, &[HEADER_CONSTANT]);
                push_all(writer, &be16_bytes(*led_count));
                push_all(writer, &[colour.0, colour.1, colour.2]);
            },
            Command::Pulse { led_count, start, end, frames, period } => {
                push_all(writer, &[HEADER_PULSE]);
                push_all(writer, &be16_bytes(*led_count));
                push_all(writer, &[start.0, start.1, start.2, end.0, end.1, end.2, *frames]);
                push_all(writer, &be16_bytes(*period));
            },
            Command::Stream(payload) => {
                push_all(writer, &[HEADER_STREAM]);
                push_all(writer, payload.as_bytes());
            },
        }
        proof {
            assert(ring_contents(*writer) =~= ring_contents(*old(writer)) + prefixed_frame(self@));
        }
        Ok(size)
    }
}

} // verus!
