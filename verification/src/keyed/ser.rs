//! Encoding a command as a keyed document.
//!
//! The document holds `type` first and then exactly the fields of the
//! command, in the order in which the command declares them.

use vstd::prelude::*;
use vstd::slice::slice_to_vec;
use crate::command::{Command, CommandView, Payload, Rgb};
use crate::keyed::document::{CommandVariant, Field, KeyedEntry, KeyedEntryView, KeyedValue, KeyedValueView, entries};
use crate::wire::rgb_bytes;

verus! {

/// The entry that holds `value` under the key of `field`.
pub open spec fn entry(field: Field, value: KeyedValueView) -> KeyedEntryView {
    KeyedEntryView { key: field.name(), value }
}

/// The entry that announces the command.
pub open spec fn type_entry(variant: CommandVariant) -> KeyedEntryView {
    entry(Field::Type, KeyedValueView::Text(variant.tag()))
}

/// The entry that holds the number `value` under the key of `field`.
pub open spec fn number_entry(field: Field, value: u64) -> KeyedEntryView {
    entry(field, KeyedValueView::Number(value))
}

/// The entry that holds `colour` under the key of `field`, as its three
/// channels.
pub open spec fn colour_entry(field: Field, colour: Rgb) -> KeyedEntryView {
    entry(field, KeyedValueView::Bytes(rgb_bytes(colour)))
}

/// The keyed document of `command`.
pub open spec fn keyed(command: CommandView) -> Seq<KeyedEntryView> {
    match command {
        CommandView::Health => seq![type_entry(CommandVariant::Health)],
        CommandView::Constant { led_count, colour } => seq![
            type_entry(CommandVariant::Constant),
            number_entry(Field::LedCount, led_count as u64),
            colour_entry(Field::Colour, colour),
        ],
        CommandView::Stream(payload) => seq![
            type_entry(CommandVariant::Stream),
            entry(Field::Bytes, KeyedValueView::Bytes(payload)),
        ],
        CommandView::Pulse { led_count, start, end, frames, period } => seq![
            type_entry(CommandVariant::Pulse),
            number_entry(Field::LedCount, led_count as u64),
            colour_entry(Field::Start, start),
            colour_entry(Field::End, end),
            number_entry(Field::Frames, frames as u64),
            number_entry(Field::Period, period as u64),
        ],
    }
}

/// Makes the entry that holds `value` under the key of `field`.
fn make_entry(field: Field, value: KeyedValue) -> (made: KeyedEntry)
    ensures
        made@ == entry(field, value@),
{
    KeyedEntry { key: field.as_str().to_owned(), value }
}

/// Makes the entry that announces the command.
fn make_type_entry(variant: CommandVariant) -> (made: KeyedEntry)
    ensures
        made@ == type_entry(variant),
{
    make_entry(Field::Type, KeyedValue::Text(variant.as_str().to_owned()))
}

/// Makes the entry that holds the three channels of `colour` under the key
/// of `field`.
fn make_colour_entry(field: Field, colour: Rgb) -> (made: KeyedEntry)
    ensures
        made@ == colour_entry(field, colour),
{
    let mut channels: Vec<u8> = Vec::new();
    channels.push(colour.0);
    channels.push(colour.1);
    channels.push(colour.2);
    assert(channels@ =~= rgb_bytes(colour));
    make_entry(field, KeyedValue::Bytes(channels))
}

impl<T: Payload> Command<T> {
    /// The keyed document of this command: `type`, then the fields of the
    /// command in their declared order, and no other key.
    pub fn encode_keyed(&self) -> (document: Vec<KeyedEntry>)
        ensures
            entries(document@) == keyed(self@),
    {
        let mut document: Vec<KeyedEntry> = Vec::new();
        match self {
            Command::Health => {
                document.push(make_type_entry(CommandVariant::Health));
            },
            Command::Constant { led_count, colour } => {
                document.push(make_type_entry(CommandVariant::Constant));
                document.push(make_entry(Field::LedCount, KeyedValue::Number(*led_count as u64)));
                document.push(make_colour_entry(Field::Colour, *colour));
            },
            Command::Stream(inner) => {
                document.push(make_type_entry(CommandVariant::Stream));
                document.push(
                    make_entry(Field::Bytes, KeyedValue::Bytes(slice_to_vec(inner.as_bytes()))),
                );
            },
            Command::Pulse { led_count, start, end, frames, period } => {
                document.push(make_type_entry(CommandVariant::Pulse));
                document.push(make_entry(Field::LedCount, KeyedValue::Number(*led_count as u64)));
                document.push(make_colour_entry(Field::Start, *start));
                document.push(make_colour_entry(Field::End, *end));
                document.push(make_entry(Field::Frames, KeyedValue::Number(*frames as u64)));
                document.push(make_entry(Field::Period, KeyedValue::Number(*period as u64)));
            },
        }
        assert(entries(document@) =~= keyed(self@));
        document
    }
}

} // verus!
