//! What holds of the keyed codec as a whole.

use vstd::prelude::*;
use crate::command::CommandView;
use crate::keyed::de::{Gathered, read};
use crate::keyed::document::{CommandVariant, Field, KeyedEntryView, KeyedValueView};
use crate::keyed::document::{lemma_field_names_distinct, lemma_tags_distinct};
use crate::keyed::error::KeyedErrorView;
use crate::keyed::ser::{colour_entry, entry, keyed, number_entry, type_entry};

verus! {

/// Visiting a document in two parts is visiting it whole.
pub proof fn lemma_visit_all_split(
    start: Gathered,
    front: Seq<KeyedEntryView>,
    back: Seq<KeyedEntryView>,
)
    ensures
        start.visit_all(front + back) == match start.visit_all(front) {
            Ok(gathered) => gathered.visit_all(back),
            Err(error) => Err(error),
        },
    decreases front.len(),
{
    if front.len() == 0 {
        assert(front + back =~= back);
    } else {
        assert((front + back)[0] == front[0]);
        assert((front + back).skip(1) =~= front.skip(1) + back);
        match start.visit(front[0]) {
            Ok(next) => lemma_visit_all_split(next, front.skip(1), back),
            Err(_) => {},
        }
    }
}

/// Visiting one entry more: what the entries before it gave, then the
/// entry.
pub proof fn lemma_visit_all_push(
    start: Gathered,
    front: Seq<KeyedEntryView>,
    last: KeyedEntryView,
)
    ensures
        start.visit_all(front.push(last)) == match start.visit_all(front) {
            Ok(gathered) => gathered.visit(last),
            Err(error) => Err(error),
        },
{
    lemma_visit_all_split(start, front, seq![last]);
    assert(front.push(last) =~= front + seq![last]);
    match start.visit_all(front) {
        Ok(gathered) => {
            assert(seq![last].skip(1) =~= Seq::<KeyedEntryView>::empty());
            match gathered.visit(last) {
                Ok(next) => {
                    assert(next.visit_all(Seq::empty()) == Ok::<Gathered, KeyedErrorView>(next));
                },
                Err(_) => {},
            }
        },
        Err(_) => {},
    }
}

/// Decoding the keyed document of a valid command gives the command back,
/// field for field.
pub proof fn lemma_read_keyed(command: CommandView)
    requires
        command.valid(),
    ensures
        read(keyed(command)) == Ok::<CommandView, KeyedErrorView>(command),
{
    lemma_field_names_distinct(Field::Type);
    lemma_field_names_distinct(Field::LedCount);
    lemma_field_names_distinct(Field::Start);
    lemma_field_names_distinct(Field::End);
    lemma_field_names_distinct(Field::Colour);
    lemma_field_names_distinct(Field::Frames);
    lemma_field_names_distinct(Field::Period);
    lemma_field_names_distinct(Field::Bytes);
    lemma_tags_distinct(CommandVariant::Health);
    lemma_tags_distinct(CommandVariant::Constant);
    lemma_tags_distinct(CommandVariant::Stream);
    lemma_tags_distinct(CommandVariant::Pulse);
    let none = Gathered::nothing();
    let empty = Seq::<KeyedEntryView>::empty();
    assert(none.visit_all(empty) == Ok::<Gathered, KeyedErrorView>(none));
    match command {
        CommandView::Health => {
            let d1 = empty.push(type_entry(CommandVariant::Health));
            lemma_visit_all_push(none, empty, type_entry(CommandVariant::Health));
            assert(keyed(command) =~= d1);
        },
        CommandView::Constant { led_count, colour } => {
            let e1 = type_entry(CommandVariant::Constant);
            let e2 = number_entry(Field::LedCount, led_count as u64);
            let e3 = colour_entry(Field::Colour, colour);
            lemma_visit_all_push(none, empty, e1);
            lemma_visit_all_push(none, empty.push(e1), e2);
            lemma_visit_all_push(none, empty.push(e1).push(e2), e3);
            assert(keyed(command) =~= empty.push(e1).push(e2).push(e3));
        },
        CommandView::Stream(payload) => {
            let e1 = type_entry(CommandVariant::Stream);
            let e2 = entry(Field::Bytes, KeyedValueView::Bytes(payload));
            lemma_visit_all_push(none, empty, e1);
            lemma_visit_all_push(none, empty.push(e1), e2);
            assert(keyed(command) =~= empty.push(e1).push(e2));
        },
        CommandView::Pulse { led_count, start, end, frames, period } => {
            let e1 = type_entry(CommandVariant::Pulse);
            let e2 = number_entry(Field::LedCount, led_count as u64);
            let e3 = colour_entry(Field::Start, start);
            let e4 = colour_entry(Field::End, end);
            let e5 = number_entry(Field::Frames, frames as u64);
            let e6 = number_entry(Field::Period, period as u64);
            lemma_visit_all_push(none, empty, e1);
            lemma_visit_all_push(none, empty.push(e1), e2);
            lemma_visit_all_push(none, empty.push(e1).push(e2), e3);
            lemma_visit_all_push(none, empty.push(e1).push(e2).push(e3), e4);
            lemma_visit_all_push(none, empty.push(e1).push(e2).push(e3).push(e4), e5);
            lemma_visit_all_push(none, empty.push(e1).push(e2).push(e3).push(e4).push(e5), e6);
            assert(keyed(command) =~= empty.push(e1).push(e2).push(e3).push(e4).push(e5).push(e6));
        },
    }
}

/// Whatever a document decodes to is a valid command: a stream is never
/// handed out with a broken triplet.
pub proof fn lemma_read_valid(document: Seq<KeyedEntryView>)
    ensures
        read(document) matches Ok(command) ==> command.valid(),
{
}

/// Entries that are not `type` announce no command: where none was
/// announced before them, none is after them.
pub proof fn lemma_type_not_gathered(start: Gathered, document: Seq<KeyedEntryView>)
    requires
        start.cmd_variant is None,
        forall|i: int|
            0 <= i < document.len() ==> Field::named(#[trigger] document[i].key) != Some(
                Field::Type,
            ),
    ensures
        start.visit_all(document) matches Ok(gathered) ==> gathered.cmd_variant is None,
    decreases document.len(),
{
    if document.len() > 0 {
        let head = document[0];
        assert(Field::named(head.key) != Some(Field::Type));
        match start.visit(head) {
            Ok(next) => {
                let rest = document.skip(1);
                assert forall|i: int| 0 <= i < rest.len() implies Field::named(
                    #[trigger] rest[i].key,
                ) != Some(Field::Type) by {
                    assert(rest[i] == document[i + 1]);
                }
                lemma_type_not_gathered(next, rest);
            },
            Err(_) => {},
        }
    }
}

/// A document holds a command only if it says which: without an entry
/// under `type` it is refused, whatever else it holds.
pub proof fn lemma_type_required(document: Seq<KeyedEntryView>)
    requires
        forall|i: int|
            0 <= i < document.len() ==> Field::named(#[trigger] document[i].key) != Some(
                Field::Type,
            ),
    ensures
        read(document) is Err,
{
    lemma_type_not_gathered(Gathered::nothing(), document);
}

/// A key that names no field is never passed over: a document that holds
/// one is refused, and where the entries before it are accepted, it is
/// refused for that key.
pub proof fn lemma_unknown_field_refused(document: Seq<KeyedEntryView>, at: int)
    requires
        0 <= at < document.len(),
        Field::named(document[at].key) is None,
    ensures
        read(document) is Err,
        Gathered::nothing().visit_all(document.take(at)) is Ok ==> read(document) == Err::<
            CommandView,
            KeyedErrorView,
        >(KeyedErrorView::UnknownField(document[at].key)),
{
    let front = document.take(at);
    let back = document.skip(at);
    assert(document =~= front + back);
    lemma_visit_all_split(Gathered::nothing(), front, back);
    assert(back[0] == document[at]);
}

/// Two entries that are accepted one after the other are accepted in the
/// other order too, and leave the same fields gathered.
pub proof fn lemma_visit_commutes(start: Gathered, first: KeyedEntryView, second: KeyedEntryView)
    requires
        start.visit(first) is Ok,
        start.visit(first)->Ok_0.visit(second) is Ok,
    ensures
        start.visit(second) is Ok,
        start.visit(second)->Ok_0.visit(first) == start.visit(first)->Ok_0.visit(second),
{
}

/// An entry that is accepted in its place is accepted ahead of the others
/// too, and the document gives the same without it behind.
pub proof fn lemma_visit_ahead(start: Gathered, document: Seq<KeyedEntryView>, at: int)
    requires
        0 <= at < document.len(),
        start.visit_all(document) is Ok,
    ensures
        start.visit(document[at]) is Ok,
        start.visit(document[at])->Ok_0.visit_all(document.remove(at)) == start.visit_all(
            document,
        ),
    decreases at,
{
    let rest = document.skip(1);
    if at == 0 {
        assert(document.remove(0) =~= rest);
    } else {
        let next = start.visit(document[0])->Ok_0;
        assert(rest[at - 1] == document[at]);
        lemma_visit_ahead(next, rest, at - 1);
        lemma_visit_commutes(start, document[0], document[at]);
        let shorter = document.remove(at);
        assert(shorter[0] == document[0]);
        assert(shorter.skip(1) =~= rest.remove(at - 1));
    }
}

/// Visiting the same entries in another order gathers the same fields.
pub proof fn lemma_visit_all_reordered(
    start: Gathered,
    document: Seq<KeyedEntryView>,
    reordered: Seq<KeyedEntryView>,
)
    requires
        document.to_multiset() == reordered.to_multiset(),
        start.visit_all(document) is Ok,
    ensures
        start.visit_all(reordered) == start.visit_all(document),
    decreases document.len(),
{
    document.to_multiset_ensures();
    reordered.to_multiset_ensures();
    if reordered.len() == 0 {
        assert(document.len() == 0);
    } else {
        let head = reordered[0];
        assert(reordered.contains(head));
        assert(document.to_multiset().count(head) > 0);
        assert(document.contains(head));
        let at: int = choose|i: int| 0 <= i < document.len() && document[i] == head;
        lemma_visit_ahead(start, document, at);
        assert(reordered.skip(1) =~= reordered.remove(0));
        assert(document.remove(at).to_multiset() == reordered.remove(0).to_multiset());
        lemma_visit_all_reordered(
            start.visit(head)->Ok_0,
            document.remove(at),
            reordered.skip(1),
        );
    }
}

/// Decoding does not depend on the order of the entries: a document whose
/// entries are all accepted gives the same, command or missing field, in
/// whatever order they stand, and a document that holds a command holds it
/// in every order.
pub proof fn lemma_order_insensitive(
    document: Seq<KeyedEntryView>,
    reordered: Seq<KeyedEntryView>,
)
    requires
        document.to_multiset() == reordered.to_multiset(),
    ensures
        Gathered::nothing().visit_all(document) is Ok ==> read(reordered) == read(document),
        read(document) is Ok <==> read(reordered) is Ok,
{
    let none = Gathered::nothing();
    if none.visit_all(document) is Ok {
        lemma_visit_all_reordered(none, document, reordered);
    }
    if none.visit_all(reordered) is Ok {
        lemma_visit_all_reordered(none, reordered, document);
    }
}

} // verus!
