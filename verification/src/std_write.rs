//! Writing frames to a growing byte buffer.

use vstd::prelude::*;
use crate::command::{Command, Payload};
use crate::wire::{be16_bytes, frame};
use crate::wire::{HEADER_CONSTANT, HEADER_HEALTH, HEADER_PULSE, HEADER_STREAM};

verus! {

impl<T: Payload> Command<T> {
    /// Appends the frame of this command to `writer` and returns the length
    /// of the frame.
    pub fn write_as_bytes(&self, writer: &mut Vec<u8>) -> (size: usize)
        ensures
            final(writer)@ == old(writer)@ + frame(self@),
            size == self@.size(),
    {
        match self {
            Command::Health => {
                writer.extend_from_slice(&[HEADER_HEALTH]);
            },
            Command::Constant { led_count, colour } => {
                writer.extend_from_slice(&[HEADER_CONSTANT]);
                writer.extend_from_slice(&be16_bytes(*led_count));
                writer.extend_from_slice(&[colour.0, colour.1, colour.2]);
            },
            Command::Pulse { led_count, start, end, frames, period } => {
                writer.extend_from_slice(&[HEADER_PULSE]);
                writer.extend_from_slice(&be16_bytes(*led_count));
                writer.extend_from_slice(
                    &[start.0, start.1, start.2, end.0, end.1, end.2, *frames],
                );
                writer.extend_from_slice(&be16_bytes(*period));
            },
            Command::Stream(payload) => {
                writer.extend_from_slice(&[HEADER_STREAM]);
                writer.extend_from_slice(payload.as_bytes());
            },
        }
        proof {
            assert(writer@ =~= old(writer)@ + frame(self@));
            // The frame lies in a vector, so its length is a machine number.
            assert(writer@.len() == writer.len());
        }
        self.size_in_bytes()
    }
}

} // verus!
