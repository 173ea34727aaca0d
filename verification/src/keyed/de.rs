//! Decoding a keyed document.
//!
//! The entries are visited in the order in which they stand; the first one
//! that cannot be accepted ends the decoding. Which fields the command
//! needs is known only when all entries have been seen, since `type` may
//! stand anywhere; a document without `type` announces no command and is
//! refused.

use vstd::prelude::*;
use vstd::slice::slice_to_vec;
use crate::command::{Command, CommandView, Rgb};
use crate::keyed::document::{CommandVariant, Field, KeyedEntry, KeyedEntryView, KeyedValue, KeyedValueView, entries};
use crate::keyed::error::{KeyedError, KeyedErrorView};
use crate::wire::rgb_at;

verus! {

/// What has been gathered from the entries visited so far.
pub struct Gathered {
    pub cmd_variant: Option<CommandVariant>,
    pub led_count: Option<u16>,
    pub colour: Option<Rgb>,
    pub start: Option<Rgb>,
    pub end: Option<Rgb>,
    pub frames: Option<u8>,
    pub period: Option<u16>,
    pub bytes: Option<Seq<u8>>,
}

impl Gathered {
    /// Nothing gathered yet.
    pub open spec fn nothing() -> Gathered {
        Gathered {
            cmd_variant: None,
            led_count: None,
            colour: None,
            start: None,
            end: None,
            frames: None,
            period: None,
            bytes: None,
        }
    }

    /// Whether `field` has been gathered.
    pub open spec fn has(self, field: Field) -> bool {
        match field {
            Field::Type => self.cmd_variant is Some,
            Field::LedCount => self.led_count is Some,
            Field::Start => self.start is Some,
            Field::End => self.end is Some,
            Field::Colour => self.colour is Some,
            Field::Frames => self.frames is Some,
            Field::Period => self.period is Some,
            Field::Bytes => self.bytes is Some,
        }
    }

    /// What is gathered once `value` has been accepted for `field`, or why
    /// it is not accepted: a command type must be one of the four literals,
    /// a count or a period a number of sixteen bits, the frames a number of
    /// eight, a colour three bytes, the payload any bytes.
    pub open spec fn accept(self, field: Field, value: KeyedValueView) -> Result<
        Gathered,
        KeyedErrorView,
    > {
        match (field, value) {
            (Field::Type, KeyedValueView::Text(tag)) => match CommandVariant::tagged(tag) {
                Some(variant) => Ok(Gathered { cmd_variant: Some(variant), ..self }),
                None => Err(KeyedErrorView::UnexpectedCommandType),
            },
            (Field::LedCount, KeyedValueView::Number(n)) if n <= u16::MAX => Ok(
                Gathered { led_count: Some(n as u16), ..self },
            ),
            (Field::Period, KeyedValueView::Number(n)) if n <= u16::MAX => Ok(
                Gathered { period: Some(n as u16), ..self },
            ),
            (Field::Frames, KeyedValueView::Number(n)) if n <= u8::MAX => Ok(
                Gathered { frames: Some(n as u8), ..self },
            ),
            (Field::Colour, KeyedValueView::Bytes(b)) if b.len() == 3 => Ok(
                Gathered { colour: Some(rgb_at(b, 0)), ..self },
            ),
            (Field::Start, KeyedValueView::Bytes(b)) if b.len() == 3 => Ok(
                Gathered { start: Some(rgb_at(b, 0)), ..self },
            ),
            (Field::End, KeyedValueView::Bytes(b)) if b.len() == 3 => Ok(
                Gathered { end: Some(rgb_at(b, 0)), ..self },
            ),
            (Field::Bytes, KeyedValueView::Bytes(b)) => Ok(Gathered { bytes: Some(b), ..self }),
            _ => Err(KeyedErrorView::InvalidValue(field)),
        }
    }

    /// What is gathered once `entry` has been visited, or why the document
    /// is refused at this entry: for a key that names no field, for a field
    /// met before, or for a value that the field does not accept.
    pub open spec fn visit(self, entry: KeyedEntryView) -> Result<Gathered, KeyedErrorView> {
        match Field::named(entry.key) {
            None => Err(KeyedErrorView::UnknownField(entry.key)),
            Some(field) => if self.has(field) {
                Err(KeyedErrorView::DuplicateField(field))
            } else {
                self.accept(field, entry.value)
            },
        }
    }

    /// What is gathered once all of `document` has been visited from here,
    /// or why it is refused at its first offending entry.
    pub open spec fn visit_all(self, document: Seq<KeyedEntryView>) -> Result<
        Gathered,
        KeyedErrorView,
    >
        decreases document.len(),
    {
        if document.len() == 0 {
            Ok(self)
        } else {
            match self.visit(document[0]) {
                Ok(next) => next.visit_all(document.skip(1)),
                Err(error) => Err(error),
            }
        }
    }

    /// The command that the gathered fields make, or the first field that
    /// is lacking: `type`, without which no command is announced, or a
    /// field that the announced command needs. Fields that the command does
    /// not use are ignored.
    pub open spec fn finish(self) -> Result<CommandView, KeyedErrorView> {
        match self.cmd_variant {
            None => Err(KeyedErrorView::MissingField(Field::Type)),
            Some(CommandVariant::Health) => Ok(CommandView::Health),
            Some(CommandVariant::Constant) => if self.colour is None {
                Err(KeyedErrorView::MissingField(Field::Colour))
            } else if self.led_count is None {
                Err(KeyedErrorView::MissingField(Field::LedCount))
            } else {
                Ok(
                    CommandView::Constant {
                        led_count: self.led_count->Some_0,
                        colour: self.colour->Some_0,
                    },
                )
            },
            Some(CommandVariant::Stream) => match self.bytes {
                None => Err(KeyedErrorView::MissingField(Field::Bytes)),
                Some(payload) => if payload.len() % 3 == 0 {
                    Ok(CommandView::Stream(payload))
                } else {
                    Err(KeyedErrorView::ByteLengthNotMultipleOf3)
                },
            },
            Some(CommandVariant::Pulse) => if self.start is None {
                Err(KeyedErrorView::MissingField(Field::Start))
            } else if self.end is None {
                Err(KeyedErrorView::MissingField(Field::End))
            } else if self.frames is None {
                Err(KeyedErrorView::MissingField(Field::Frames))
            } else if self.period is None {
                Err(KeyedErrorView::MissingField(Field::Period))
            } else if self.led_count is None {
                Err(KeyedErrorView::MissingField(Field::LedCount))
            } else {
                Ok(
                    CommandView::Pulse {
                        led_count: self.led_count->Some_0,
                        start: self.start->Some_0,
                        end: self.end->Some_0,
                        frames: self.frames->Some_0,
                        period: self.period->Some_0,
                    },
                )
            },
        }
    }
}

/// The command that `document` holds, or why it holds none.
pub open spec fn read(document: Seq<KeyedEntryView>) -> Result<CommandView, KeyedErrorView> {
    match Gathered::nothing().visit_all(document) {
        Ok(gathered) => gathered.finish(),
        Err(error) => Err(error),
    }
}

/// The decoder of a keyed document: it visits the entries one by one and
/// gathers their fields.
pub struct CommandVisitor {
    pub cmd_variant: Option<CommandVariant>,
    pub led_count: Option<u16>,
    pub colour: Option<Rgb>,
    pub start: Option<Rgb>,
    pub end: Option<Rgb>,
    pub frames: Option<u8>,
    pub period: Option<u16>,
    pub bytes: Option<Vec<u8>>,
}

impl View for CommandVisitor {
    type V = Gathered;

    open spec fn view(&self) -> Gathered {
        Gathered {
            cmd_variant: self.cmd_variant,
            led_count: self.led_count,
            colour: self.colour,
            start: self.start,
            end: self.end,
            frames: self.frames,
            period: self.period,
            bytes: match self.bytes {
                Some(payload) => Some(payload@),
                None => None,
            },
        }
    }
}

impl Default for CommandVisitor {
    /// A decoder that has visited nothing.
    fn default() -> (visitor: Self)
        ensures
            visitor@ == Gathered::nothing(),
    {
        Self {
            cmd_variant: None,
            led_count: None,
            colour: None,
            start: None,
            end: None,
            frames: None,
            period: None,
            bytes: None,
        }
    }
}

/// Whether `outcome` reports what `expected` says: success with the state
/// that `expected` gives, or failure with the condition that it gives and
/// the state as it was.
pub open spec fn reports(
    outcome: Result<(), KeyedError>,
    expected: Result<Gathered, KeyedErrorView>,
    before: Gathered,
    after: Gathered,
) -> bool {
    match expected {
        Ok(next) => outcome is Ok && after == next,
        Err(error) => outcome matches Err(reported) && reported@ == error && after == before,
    }
}

/// Reads a colour from a value of exactly three bytes.
fn colour_of(value: &KeyedValue) -> (colour: Option<Rgb>)
    ensures
        colour == match value@ {
            KeyedValueView::Bytes(b) if b.len() == 3 => Some(rgb_at(b, 0)),
            _ => None::<Rgb>,
        },
{
    match value {
        KeyedValue::Bytes(bytes) => {
            if bytes.len() == 3 {
                Some((bytes[0], bytes[1], bytes[2]))
            } else {
                None
            }
        },
        _ => None,
    }
}

/// Reads a number of at most `max` from a value.
fn number_of(value: &KeyedValue, max: u64) -> (number: Option<u64>)
    ensures
        number == match value@ {
            KeyedValueView::Number(n) if n <= max => Some(n),
            _ => None::<u64>,
        },
{
    match value {
        KeyedValue::Number(n) => {
            if *n <= max {
                Some(*n)
            } else {
                None
            }
        },
        _ => None,
    }
}

impl CommandVisitor {
    /// Whether `field` has been gathered.
    pub fn has(&self, field: Field) -> (seen: bool)
        ensures
            seen == self@.has(field),
    {
        match field {
            Field::Type => self.cmd_variant.is_some(),
            Field::LedCount => self.led_count.is_some(),
            Field::Start => self.start.is_some(),
            Field::End => self.end.is_some(),
            Field::Colour => self.colour.is_some(),
            Field::Frames => self.frames.is_some(),
            Field::Period => self.period.is_some(),
            Field::Bytes => self.bytes.is_some(),
        }
    }

    /// Takes `value`, the text under `type`, as the announcement of the
    /// command; a text that is none of the four literals is refused.
    pub fn resolve_cmd_type(&mut self, value: &str) -> (outcome: Result<(), KeyedError>)
        ensures
            reports(
                outcome,
                old(self)@.accept(Field::Type, KeyedValueView::Text(value@)),
                old(self)@,
                final(self)@,
            ),
    {
        match CommandVariant::from_tag(value) {
            Some(variant) => {
                self.cmd_variant = Some(variant);
                Ok(())
            },
            None => Err(KeyedError::UnexpectedCommandType),
        }
    }

    /// Takes `value` as the value of `field`, if the field accepts it.
    pub fn accept(&mut self, field: Field, value: &KeyedValue) -> (outcome: Result<(), KeyedError>)
        ensures
            reports(outcome, old(self)@.accept(field, value@), old(self)@, final(self)@),
    {
        match field {
            Field::Type => match value {
                KeyedValue::Text(tag) => self.resolve_cmd_type(tag.as_str()),
                _ => Err(KeyedError::InvalidValue(field)),
            },
            Field::LedCount => match number_of(value, 0xFFFF) {
                Some(n) => {
                    self.led_count = Some(n as u16);
                    Ok(())
                },
                None => Err(KeyedError::InvalidValue(field)),
            },
            Field::Period => match number_of(value, 0xFFFF) {
                Some(n) => {
                    self.period = Some(n as u16);
                    Ok(())
                },
                None => Err(KeyedError::InvalidValue(field)),
            },
            Field::Frames => match number_of(value, 0xFF) {
                Some(n) => {
                    self.frames = Some(n as u8);
                    Ok(())
                },
                None => Err(KeyedError::InvalidValue(field)),
            },
            Field::Colour => match colour_of(value) {
                Some(colour) => {
                    self.colour = Some(colour);
                    Ok(())
                },
                None => Err(KeyedError::InvalidValue(field)),
            },
            Field::Start => match colour_of(value) {
                Some(colour) => {
                    self.start = Some(colour);
                    Ok(())
                },
                None => Err(KeyedError::InvalidValue(field)),
            },
            Field::End => match colour_of(value) {
                Some(colour) => {
                    self.end = Some(colour);
                    Ok(())
                },
                None => Err(KeyedError::InvalidValue(field)),
            },
            Field::Bytes => match value {
                KeyedValue::Bytes(payload) => {
                    self.bytes = Some(slice_to_vec(payload.as_slice()));
                    Ok(())
                },
                _ => Err(KeyedError::InvalidValue(field)),
            },
        }
    }

    /// Visits one entry: `value` under `key`.
    pub fn visit_entry(&mut self, key: &str, value: &KeyedValue) -> (outcome: Result<
        (),
        KeyedError,
    >)
        ensures
            reports(
                outcome,
                old(self)@.visit(KeyedEntryView { key: key@, value: value@ }),
                old(self)@,
                final(self)@,
            ),
    {
        match Field::from_key(key) {
            None => Err(KeyedError::UnknownField(key.to_owned())),
            Some(field) => {
                if self.has(field) {
                    Err(KeyedError::DuplicateField(field))
                } else {
                    self.accept(field, value)
                }
            },
        }
    }
}

/// Whether `decoded` is what `expected` says: the command that it gives,
/// or the condition with which it refuses the document.
pub open spec fn decodes_keyed(
    decoded: Result<Command<Vec<u8>>, KeyedError>,
    expected: Result<CommandView, KeyedErrorView>,
) -> bool {
    match expected {
        Ok(command) => decoded matches Ok(found) && found@ == command,
        Err(error) => decoded matches Err(reported) && reported@ == error,
    }
}

impl CommandVisitor {
    /// Makes the command from the gathered fields, once all entries have
    /// been visited.
    pub fn finish(self) -> (decoded: Result<Command<Vec<u8>>, KeyedError>)
        ensures
            decodes_keyed(decoded, self@.finish()),
    {
        match self.cmd_variant {
            None => Err(KeyedError::MissingField(Field::Type)),
            Some(CommandVariant::Health) => Ok(Command::Health),
            Some(CommandVariant::Constant) => {
                let colour: Rgb = match self.colour {
                    Some(colour) => colour,
                    None => return Err(KeyedError::MissingField(Field::Colour)),
                };
                let led_count: u16 = match self.led_count {
                    Some(led_count) => led_count,
                    None => return Err(KeyedError::MissingField(Field::LedCount)),
                };
                Ok(Command::Constant { led_count, colour })
            },
            Some(CommandVariant::Stream) => {
                let bytes: Vec<u8> = match self.bytes {
                    Some(bytes) => bytes,
                    None => return Err(KeyedError::MissingField(Field::Bytes)),
                };
                if bytes.len() % 3 == 0 {
                    Ok(Command::Stream(bytes))
                } else {
                    Err(KeyedError::ByteLengthNotMultipleOf3)
                }
            },
            Some(CommandVariant::Pulse) => {
                let start: Rgb = match self.start {
                    Some(start) => start,
                    None => return Err(KeyedError::MissingField(Field::Start)),
                };
                let end: Rgb = match self.end {
                    Some(end) => end,
                    None => return Err(KeyedError::MissingField(Field::End)),
                };
                let frames: u8 = match self.frames {
                    Some(frames) => frames,
                    None => return Err(KeyedError::MissingField(Field::Frames)),
                };
                let period: u16 = match self.period {
                    Some(period) => period,
                    None => return Err(KeyedError::MissingField(Field::Period)),
                };
                let led_count: u16 = match self.led_count {
                    Some(led_count) => led_count,
                    None => return Err(KeyedError::MissingField(Field::LedCount)),
                };
                Ok(Command::Pulse { led_count, start, end, frames, period })
            },
        }
    }

    /// Visits the entries of `map` in their order and makes the command
    /// from what they hold.
    pub fn visit_map(self, map: &[KeyedEntry]) -> (decoded: Result<Command<Vec<u8>>, KeyedError>)
        ensures
            decodes_keyed(
                decoded,
                match self@.visit_all(entries(map@)) {
                    Ok(gathered) => gathered.finish(),
                    Err(error) => Err(error),
                },
            ),
    {
        let mut visitor = self;
        let n: usize = map.len();
        let mut i: usize = 0;
        proof {
            assert(entries(map@).skip(0) =~= entries(map@));
        }
        while i < n
            invariant
                n == map@.len(),
                i <= n,
                self@.visit_all(entries(map@)) == visitor@.visit_all(entries(map@).skip(i as int)),
            decreases n - i,
        {
            let entry = &map[i];
            proof {
                let rest = entries(map@).skip(i as int);
                assert(rest[0] == entry@);
                assert(rest.skip(1) =~= entries(map@).skip(i + 1));
            }
            match visitor.visit_entry(entry.key.as_str(), &entry.value) {
                Ok(()) => {},
                Err(error) => return Err(error),
            }
            i += 1;
        }
        visitor.finish()
    }
}

impl Command<Vec<u8>> {
    /// Decodes a keyed document. The command owns its payload: nothing of
    /// it borrows from `document`.
    pub fn decode_keyed(document: &[KeyedEntry]) -> (decoded: Result<Self, KeyedError>)
        ensures
            decodes_keyed(decoded, read(entries(document@))),
    {
        CommandVisitor::default().visit_map(document)
    }
}

} // verus!
