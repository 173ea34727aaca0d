//! The failures a codec operation can report.

use vstd::prelude::*;

verus! {

/// Why an encode or decode operation was abandoned.
///
/// Every failure is terminal for the operation that reports it: nothing is
/// retried and no partial result is handed out.
#[derive(Debug, PartialEq, Eq, Clone, Copy, Structural)]
pub enum CommandError {
    /// The header byte names no known command.
    InvalidHeader,
    /// The input is too short for the command its header names, or a stream
    /// payload does not consist of whole RGB triplets.
    MalformedPayload,
    /// The destination cannot hold the whole frame.
    BufferTooSmall,
}

/// The two-letter code under which an error travels on diagnostic channels.
pub open spec fn error_code(e: CommandError) -> Seq<char> {
    match e {
        CommandError::InvalidHeader => "CH"@,
        CommandError::MalformedPayload => "CP"@,
        CommandError::BufferTooSmall => "CS"@,
    }
}

impl<'a> From<&'a CommandError> for &'static str {
    /// The diagnostic code of `value`.
    fn from(value: &'a CommandError) -> (code: &'static str)
        ensures
            code@ == error_code(*value),
    {
        match value {
            CommandError::BufferTooSmall => "CS",
            CommandError::InvalidHeader => "CH",
            CommandError::MalformedPayload => "CP",
        }
    }
}

impl<'a> vstd::std_specs::convert::FromSpecImpl<&'a CommandError> for &'static str {
    open spec fn obeys_from_spec() -> bool {
        true
    }

    open spec fn from_spec(value: &'a CommandError) -> &'static str {
        match value {
            CommandError::BufferTooSmall => "CS",
            CommandError::InvalidHeader => "CH",
            CommandError::MalformedPayload => "CP",
        }
    }
}

impl From<CommandError> for &'static str {
    /// The diagnostic code of `value`.
    fn from(value: CommandError) -> (code: &'static str)
        ensures
            code@ == error_code(value),
    {
        <&'static str>::from(&value)
    }
}

impl vstd::std_specs::convert::FromSpecImpl<CommandError> for &'static str {
    open spec fn obeys_from_spec() -> bool {
        true
    }

    open spec fn from_spec(value: CommandError) -> &'static str {
        <&'static str as vstd::std_specs::convert::FromSpec<&CommandError>>::from_spec(&value)
    }
}

} // verus!
