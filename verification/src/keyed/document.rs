//! The keyed document and the names that are part of its wire contract.

use vstd::prelude::*;
use crate::error::CommandError;
use crate::keyed::text::str_eq;

verus! {

/// A field that a keyed document can name.
#[derive(Debug, PartialEq, Eq, Clone, Copy, Structural)]
pub enum Field {
    Type,
    LedCount,
    Start,
    End,
    Colour,
    Frames,
    Period,
    Bytes,
}

/// The keys that a document may hold, one for each field.
pub const FIELD_NAMES: [&'static str; 8] = [
    "type",
    "led_count",
    "start",
    "end",
    "colour",
    "frames",
    "period",
    "bytes",
];

impl Field {
    /// Where the key of the field stands in [`FIELD_NAMES`].
    pub open spec fn position(self) -> int {
        match self {
            Field::Type => 0,
            Field::LedCount => 1,
            Field::Start => 2,
            Field::End => 3,
            Field::Colour => 4,
            Field::Frames => 5,
            Field::Period => 6,
            Field::Bytes => 7,
        }
    }

    /// The key under which the field travels.
    pub open spec fn name(self) -> Seq<char> {
        match self {
            Field::Type => "type"@,
            Field::LedCount => "led_count"@,
            Field::Start => "start"@,
            Field::End => "end"@,
            Field::Colour => "colour"@,
            Field::Frames => "frames"@,
            Field::Period => "period"@,
            Field::Bytes => "bytes"@,
        }
    }

    /// The field that travels under `key`, if there is one.
    pub open spec fn named(key: Seq<char>) -> Option<Field> {
        if key == Field::Type.name() {
            Some(Field::Type)
        } else if key == Field::LedCount.name() {
            Some(Field::LedCount)
        } else if key == Field::Start.name() {
            Some(Field::Start)
        } else if key == Field::End.name() {
            Some(Field::End)
        } else if key == Field::Colour.name() {
            Some(Field::Colour)
        } else if key == Field::Frames.name() {
            Some(Field::Frames)
        } else if key == Field::Period.name() {
            Some(Field::Period)
        } else if key == Field::Bytes.name() {
            Some(Field::Bytes)
        } else {
            None
        }
    }

    /// The key under which the field travels.
    pub fn as_str(&self) -> (key: &'static str)
        ensures
            key@ == self.name(),
    {
        match self {
            Field::Type => "type",
            Field::LedCount => "led_count",
            Field::Start => "start",
            Field::End => "end",
            Field::Colour => "colour",
            Field::Frames => "frames",
            Field::Period => "period",
            Field::Bytes => "bytes",
        }
    }

    /// The field that travels under `key`, if there is one.
    pub fn from_key(key: &str) -> (field: Option<Field>)
        ensures
            field == Field::named(key@),
    {
        if str_eq(key, "type") {
            Some(Field::Type)
        } else if str_eq(key, "led_count") {
            Some(Field::LedCount)
        } else if str_eq(key, "start") {
            Some(Field::Start)
        } else if str_eq(key, "end") {
            Some(Field::End)
        } else if str_eq(key, "colour") {
            Some(Field::Colour)
        } else if str_eq(key, "frames") {
            Some(Field::Frames)
        } else if str_eq(key, "period") {
            Some(Field::Period)
        } else if str_eq(key, "bytes") {
            Some(Field::Bytes)
        } else {
            None
        }
    }
}

/// The table of keys holds the key of every field, each in its place.
pub proof fn lemma_field_names_table(field: Field)
    ensures
        0 <= field.position() < FIELD_NAMES@.len() == 8,
        FIELD_NAMES@[field.position()]@ == field.name(),
{
}

/// No two fields travel under one key: the key of a field names that field
/// and no other.
pub proof fn lemma_field_names_distinct(field: Field)
    ensures
        Field::named(field.name()) == Some(field),
{
    reveal_strlit("type");
    reveal_strlit("led_count");
    reveal_strlit("start");
    reveal_strlit("end");
    reveal_strlit("colour");
    reveal_strlit("frames");
    reveal_strlit("period");
    reveal_strlit("bytes");
    // No two names begin with the same letter.
    lemma_differ_at("type"@, "led_count"@, 0);
    lemma_differ_at("type"@, "start"@, 0);
    lemma_differ_at("type"@, "end"@, 0);
    lemma_differ_at("type"@, "colour"@, 0);
    lemma_differ_at("type"@, "frames"@, 0);
    lemma_differ_at("type"@, "period"@, 0);
    lemma_differ_at("type"@, "bytes"@, 0);
    lemma_differ_at("led_count"@, "start"@, 0);
    lemma_differ_at("led_count"@, "end"@, 0);
    lemma_differ_at("led_count"@, "colour"@, 0);
    lemma_differ_at("led_count"@, "frames"@, 0);
    lemma_differ_at("led_count"@, "period"@, 0);
    lemma_differ_at("led_count"@, "bytes"@, 0);
    lemma_differ_at("start"@, "end"@, 0);
    lemma_differ_at("start"@, "colour"@, 0);
    lemma_differ_at("start"@, "frames"@, 0);
    lemma_differ_at("start"@, "period"@, 0);
    lemma_differ_at("start"@, "bytes"@, 0);
    lemma_differ_at("end"@, "colour"@, 0);
    lemma_differ_at("end"@, "frames"@, 0);
    lemma_differ_at("end"@, "period"@, 0);
    lemma_differ_at("end"@, "bytes"@, 0);
    lemma_differ_at("colour"@, "frames"@, 0);
    lemma_differ_at("colour"@, "period"@, 0);
    lemma_differ_at("colour"@, "bytes"@, 0);
    lemma_differ_at("frames"@, "period"@, 0);
    lemma_differ_at("frames"@, "bytes"@, 0);
    lemma_differ_at("period"@, "bytes"@, 0);
}

/// Two texts that differ in one place are different texts.
pub proof fn lemma_differ_at(a: Seq<char>, b: Seq<char>, at: int)
    requires
        0 <= at < a.len(),
        0 <= at < b.len(),
        a[at] != b[at],
    ensures
        a != b,
{
}

/// Which command a keyed document announces under `type`.
#[derive(Debug, PartialEq, Eq, Clone, Copy, Structural)]
pub enum CommandVariant {
    Health,
    Constant,
    Stream,
    Pulse,
}

impl CommandVariant {
    /// The literal that announces the command.
    pub open spec fn tag(self) -> Seq<char> {
        match self {
            CommandVariant::Health => "health"@,
            CommandVariant::Constant => "constant"@,
            CommandVariant::Stream => "stream"@,
            CommandVariant::Pulse => "pulse"@,
        }
    }

    /// The command that `tag` announces, if it is one of the four literals.
    pub open spec fn tagged(tag: Seq<char>) -> Option<CommandVariant> {
        if tag == CommandVariant::Constant.tag() {
            Some(CommandVariant::Constant)
        } else if tag == CommandVariant::Pulse.tag() {
            Some(CommandVariant::Pulse)
        } else if tag == CommandVariant::Health.tag() {
            Some(CommandVariant::Health)
        } else if tag == CommandVariant::Stream.tag() {
            Some(CommandVariant::Stream)
        } else {
            None
        }
    }

    /// The literal that announces the command.
    pub fn as_str(&self) -> (tag: &'static str)
        ensures
            tag@ == self.tag(),
    {
        match self {
            CommandVariant::Health => "health",
            CommandVariant::Constant => "constant",
            CommandVariant::Stream => "stream",
            CommandVariant::Pulse => "pulse",
        }
    }

    /// The command that `tag` announces, if it is one of the four literals.
    pub fn from_tag(tag: &str) -> (variant: Option<CommandVariant>)
        ensures
            variant == CommandVariant::tagged(tag@),
    {
        if str_eq(tag, "constant") {
            Some(CommandVariant::Constant)
        } else if str_eq(tag, "pulse") {
            Some(CommandVariant::Pulse)
        } else if str_eq(tag, "health") {
            Some(CommandVariant::Health)
        } else if str_eq(tag, "stream") {
            Some(CommandVariant::Stream)
        } else {
            None
        }
    }
}

/// The literal of a command announces that command and no other.
pub proof fn lemma_tags_distinct(variant: CommandVariant)
    ensures
        CommandVariant::tagged(variant.tag()) == Some(variant),
{
    reveal_strlit("health");
    reveal_strlit("constant");
    reveal_strlit("stream");
    reveal_strlit("pulse");
    // No two literals begin with the same letter.
    lemma_differ_at("constant"@, "pulse"@, 0);
    lemma_differ_at("constant"@, "health"@, 0);
    lemma_differ_at("constant"@, "stream"@, 0);
    lemma_differ_at("pulse"@, "health"@, 0);
    lemma_differ_at("pulse"@, "stream"@, 0);
    lemma_differ_at("health"@, "stream"@, 0);
}

/// A value in a keyed document: a text, an unsigned number or a sequence of
/// 8-bit numbers.
#[derive(Debug, PartialEq, Eq, Clone)]
pub enum KeyedValue {
    Text(String),
    Number(u64),
    Bytes(Vec<u8>),
}

/// What a [`KeyedValue`] holds.
pub enum KeyedValueView {
    Text(Seq<char>),
    Number(u64),
    Bytes(Seq<u8>),
}

impl View for KeyedValue {
    type V = KeyedValueView;

    open spec fn view(&self) -> KeyedValueView {
        match *self {
            KeyedValue::Text(text) => KeyedValueView::Text(text@),
            KeyedValue::Number(number) => KeyedValueView::Number(number),
            KeyedValue::Bytes(bytes) => KeyedValueView::Bytes(bytes@),
        }
    }
}

/// One entry of a keyed document.
#[derive(Debug, PartialEq, Eq, Clone)]
pub struct KeyedEntry {
    pub key: String,
    pub value: KeyedValue,
}

/// What a [`KeyedEntry`] holds.
pub struct KeyedEntryView {
    pub key: Seq<char>,
    pub value: KeyedValueView,
}

impl View for KeyedEntry {
    type V = KeyedEntryView;

    open spec fn view(&self) -> KeyedEntryView {
        KeyedEntryView { key: self.key@, value: self.value@ }
    }
}

/// What a document holds, entry by entry.
pub open spec fn entries(document: Seq<KeyedEntry>) -> Seq<KeyedEntryView> {
    Seq::new(document.len(), |i: int| document[i]@)
}

} // verus!
