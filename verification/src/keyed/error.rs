//! Why a keyed document is refused.

use vstd::prelude::*;
use vstd::string::StringExecFns;
use crate::error::CommandError;
use crate::keyed::document::Field;

verus! {

/// Why a keyed document holds no command.
#[derive(Debug, PartialEq, Eq, Clone)]
pub enum KeyedError {
    /// The document holds a key that names no field.
    UnknownField(String),
    /// The document holds the field twice.
    DuplicateField(Field),
    /// The document lacks the field: `type`, which every document holds,
    /// or a field that the announced command needs.
    MissingField(Field),
    /// The value under the field is of the wrong kind or out of the field's
    /// range.
    InvalidValue(Field),
    /// The value under `type` is none of the four command literals.
    UnexpectedCommandType,
    /// The stream payload does not consist of whole RGB triplets.
    ByteLengthNotMultipleOf3,
}

/// What a [`KeyedError`] says.
pub enum KeyedErrorView {
    UnknownField(Seq<char>),
    DuplicateField(Field),
    MissingField(Field),
    InvalidValue(Field),
    UnexpectedCommandType,
    ByteLengthNotMultipleOf3,
}

impl KeyedErrorView {
    /// The kind of codec failure that the condition refines: an unknown
    /// command type is an invalid header, everything else a malformed
    /// payload.
    pub open spec fn kind(self) -> CommandError {
        match self {
            KeyedErrorView::UnexpectedCommandType => CommandError::InvalidHeader,
            _ => CommandError::MalformedPayload,
        }
    }
}

impl KeyedErrorView {
    /// The condition in words, with the name of the field it concerns.
    pub open spec fn message(self) -> Seq<char> {
        match self {
            KeyedErrorView::UnknownField(key) => "unknown field `"@ + key + "`"@,
            KeyedErrorView::DuplicateField(field) => "duplicate field `"@ + field.name() + "`"@,
            KeyedErrorView::MissingField(field) => "missing field `"@ + field.name() + "`"@,
            KeyedErrorView::InvalidValue(field) => "invalid value for field `"@ + field.name()
                + "`"@,
            KeyedErrorView::UnexpectedCommandType => "Unexpected command type"@,
            KeyedErrorView::ByteLengthNotMultipleOf3 => "Byte length must be multiple of 3"@,
        }
    }
}

impl View for KeyedError {
    type V = KeyedErrorView;

    open spec fn view(&self) -> KeyedErrorView {
        match *self {
            KeyedError::UnknownField(key) => KeyedErrorView::UnknownField(key@),
            KeyedError::DuplicateField(field) => KeyedErrorView::DuplicateField(field),
            KeyedError::MissingField(field) => KeyedErrorView::MissingField(field),
            KeyedError::InvalidValue(field) => KeyedErrorView::InvalidValue(field),
            KeyedError::UnexpectedCommandType => KeyedErrorView::UnexpectedCommandType,
            KeyedError::ByteLengthNotMultipleOf3 => KeyedErrorView::ByteLengthNotMultipleOf3,
        }
    }
}

impl KeyedError {
    /// The kind of codec failure that this condition refines.
    pub fn kind(&self) -> (kind: CommandError)
        ensures
            kind == self@.kind(),
    {
        match self {
            KeyedError::UnexpectedCommandType => CommandError::InvalidHeader,
            _ => CommandError::MalformedPayload,
        }
    }

    /// The condition in words, with the name of the field it concerns.
    pub fn message(&self) -> (text: String)
        ensures
            text@ == self@.message(),
    {
        match self {
            KeyedError::UnknownField(key) => quoted("unknown field `", key.as_str()),
            KeyedError::DuplicateField(field) => quoted("duplicate field `", field.as_str()),
            KeyedError::MissingField(field) => quoted("missing field `", field.as_str()),
            KeyedError::InvalidValue(field) => quoted("invalid value for field `", field.as_str()),
            KeyedError::UnexpectedCommandType => "Unexpected command type".to_owned(),
            KeyedError::ByteLengthNotMultipleOf3 => "Byte length must be multiple of 3".to_owned(),
        }
    }
}

/// `lead`, then `name`, then a closing backtick.
fn quoted(lead: &str, name: &str) -> (text: String)
    ensures
        text@ == lead@ + name@ + "`"@,
{
    lead.to_owned().concat(name).concat("`")
}

} // verus!
