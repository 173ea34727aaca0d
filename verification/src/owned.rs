//! Commands that own their stream payload.

use vstd::prelude::*;
use vstd::slice::slice_to_vec;
use crate::command::Command;
use crate::embedded::decodes;
use crate::wire::parse;
use crate::error::CommandError;

verus! {

impl<'a> From<Command<&'a [u8]>> for Command<Vec<u8>> {
    /// Copies a borrowed stream payload into a buffer of its own; the
    /// command says what it said before.
    fn from(src: Command<&'a [u8]>) -> (owned: Self)
        ensures
            owned@ == src@,
    {
        match src {
            Command::Health => Command::Health,
            Command::Constant { led_count, colour } => Command::Constant { led_count, colour },
            Command::Stream(bytes) => Command::Stream(slice_to_vec(bytes)),
            Command::Pulse { led_count, start, end, frames, period } => Command::Pulse {
                led_count,
                start,
                end,
                frames,
                period,
            },
        }
    }
}

impl<'a> vstd::std_specs::convert::FromSpecImpl<Command<&'a [u8]>> for Command<Vec<u8>> {
    /// Two buffers with the same bytes are not one value, so the result is
    /// stated by its view, on `from` itself.
    open spec fn obeys_from_spec() -> bool {
        false
    }

    open spec fn from_spec(src: Command<&'a [u8]>) -> Self {
        choose|owned: Self| owned@ == src@
    }
}

impl<'a> TryFrom<&'a [u8]> for Command<Vec<u8>> {
    type Error = CommandError;

    /// Decodes the frame at the start of `value` into a command that does
    /// not borrow from it.
    fn try_from(value: &'a [u8]) -> (decoded: Result<Self, CommandError>)
        ensures
            decodes(decoded, parse(value@)),
    {
        match Command::<&'a [u8]>::try_from(value) {
            Ok(borrowed) => Ok(Command::<Vec<u8>>::from(borrowed)),
            Err(error) => Err(error),
        }
    }
}

impl<'a> vstd::std_specs::convert::TryFromSpecImpl<&'a [u8]> for Command<Vec<u8>> {
    /// As for `from`: the result is stated by its view, on `try_from`
    /// itself.
    open spec fn obeys_try_from_spec() -> bool {
        false
    }

    open spec fn try_from_spec(value: &'a [u8]) -> Result<Self, CommandError> {
        choose|decoded: Result<Self, CommandError>| decodes(decoded, parse(value@))
    }
}

} // verus!
