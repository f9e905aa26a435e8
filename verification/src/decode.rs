//! From a payload to entries: a JSON array of objects that each carry a
//! string `id` and a string `name`.

use vstd::prelude::*;
use vstd::string::*;
use crate::document::{
    Json, JsonView, json_parse, parse_document, spec_parsable, spec_parse_document, trees_view,
};
use crate::entry::{Entry, EntryView, entries_view};
use crate::error::ErrorKind;

verus! {

/// The entry that an object describes: the strings under its keys `id` and
/// `name`. `None` where the value is no object or lacks one of the two, or
/// holds something other than a string under one of them. Other members
/// of the object are passed over.
pub open spec fn spec_entry(node: JsonView) -> Option<EntryView> {
    match (node.spec_text_member("id"@), node.spec_text_member("name"@)) {
        (Some(id), Some(name)) => Some(EntryView { id, name }),
        _ => None,
    }
}

/// Whether every member of the list describes an entry.
pub open spec fn all_entries(items: Seq<JsonView>) -> bool {
    forall|i: int| 0 <= i < items.len() ==> (#[trigger] spec_entry(items[i])) is Some
}

/// The entries that a document lists: for an array whose members all
/// describe an entry, those entries in the array's order; `DecodeError` for
/// every other document.
pub open spec fn spec_entries(document: JsonView) -> Result<Seq<EntryView>, ErrorKind> {
    match document.spec_items() {
        Some(items) => if all_entries(items) {
            Ok(Seq::new(items.len(), |i: int| spec_entry(items[i])->0))
        } else {
            Err(ErrorKind::DecodeError)
        },
        None => Err(ErrorKind::DecodeError),
    }
}

/// The entries that a payload lists: those of the document it holds.
/// `DecodeError` where it is not JSON at all, and where it holds a fraction
/// too long for the parser to count.
pub open spec fn spec_decode(payload: Seq<char>) -> Result<Seq<EntryView>, ErrorKind> {
    match spec_parse_document(payload) {
        Ok(document) => spec_entries(document),
        Err(kind) => Err(kind),
    }
}

/// The contents of a decoding's outcome.
pub open spec fn outcome_view(outcome: Result<Vec<Entry>, ErrorKind>) -> Result<
    Seq<EntryView>,
    ErrorKind,
> {
    match outcome {
        Ok(entries) => Ok(entries_view(entries@)),
        Err(kind) => Err(kind),
    }
}

/// Reads one entry from one member of the collection.
pub fn entry_of(node: &Json) -> (entry: Option<Entry>)
    ensures
        entry is Some == spec_entry(node@) is Some,
        entry matches Some(e) ==> spec_entry(node@) == Some(e@),
{
    let id_key = String::from_str("id");
    let name_key = String::from_str("name");
    match (node.text_member(&id_key), node.text_member(&name_key)) {
        (Some(id), Some(name)) => Some(Entry::new(id.clone(), name.clone())),
        _ => None,
    }
}

/// Reads the entries out of a document, all of them or none.
pub fn entries_of(document: &Json) -> (outcome: Result<Vec<Entry>, ErrorKind>)
    ensures
        outcome_view(outcome) == spec_entries(document@),
{
    match document.items() {
        Some(items) => {
            let mut entries: Vec<Entry> = Vec::new();
            let mut at: usize = 0;
            while at < items.len()
                invariant
                    at <= items.len(),
                    entries@.len() == at,
                    forall|i: int|
                        0 <= i < at ==> (#[trigger] spec_entry(items@[i]@)) == Some(entries@[i]@),
                    document@.spec_items() == Some(trees_view(items@)),
                decreases items.len() - at,
            {
                match entry_of(&items[at]) {
                    Some(entry) => entries.push(entry),
                    None => {
                        assert(spec_entry(trees_view(items@)[at as int]) is None);
                        assert(!all_entries(trees_view(items@)));
                        return Err(ErrorKind::DecodeError);
                    },
                }
                at = at + 1;
            }
            assert forall|i: int| 0 <= i < trees_view(items@).len() implies (#[trigger] spec_entry(
                trees_view(items@)[i],
            )) is Some by {
                assert(spec_entry(items@[i]@) is Some);
            }
            assert(entries_view(entries@) == Seq::new(
                items@.len(),
                |i: int| spec_entry(trees_view(items@)[i])->0,
            ));
            Ok(entries)
        },
        None => Err(ErrorKind::DecodeError),
    }
}

/// Decodes a payload: a JSON array of objects, each with a string `id` and a
/// string `name`, gives their entries in the payload's order. Anything else
/// is a `DecodeError`, and nothing of it is kept. So is a payload with a
/// fraction too long for the parser to count, which is not read at all.
pub fn decode_entries(payload: &str) -> (outcome: Result<Vec<Entry>, ErrorKind>)
    ensures
        outcome_view(outcome) == spec_decode(payload@),
{
    match parse_document(payload) {
        Ok(document) => entries_of(&document),
        Err(_) => Err(ErrorKind::DecodeError),
    }
}

/// Whether a document is a collection of entries: an array of objects that
/// each hold a string under `id` and a string under `name`.
pub open spec fn is_collection(document: JsonView) -> bool {
    &&& document.spec_items() is Some
    &&& forall|i: int|
        0 <= i < document.spec_items()->0.len() ==> {
            &&& (#[trigger] document.spec_items()->0[i]).spec_text_member("id"@) is Some
            &&& document.spec_items()->0[i].spec_text_member("name"@) is Some
        }
}

/// A collection decodes to as many entries as it has members, in the same
/// order, each with exactly the id and the name of its member.
pub proof fn lemma_collection_keeps_ids_names_and_order(document: JsonView)
    requires
        is_collection(document),
    ensures
        spec_entries(document) is Ok,
        spec_entries(document)->Ok_0.len() == document.spec_items()->0.len(),
        forall|i: int|
            0 <= i < document.spec_items()->0.len() ==> {
                &&& Some((#[trigger] spec_entries(document)->Ok_0[i]).id)
                    == document.spec_items()->0[i].spec_text_member("id"@)
                &&& Some(spec_entries(document)->Ok_0[i].name)
                    == document.spec_items()->0[i].spec_text_member("name"@)
            },
{
    let items = document.spec_items()->0;
    assert forall|i: int| 0 <= i < items.len() implies (#[trigger] spec_entry(items[i])) is Some by {
        assert(items[i].spec_text_member("id"@) is Some);
    }
}

/// Exactly the collections decode. Every other document is a `DecodeError`.
pub proof fn lemma_only_collections_decode(document: JsonView)
    ensures
        spec_entries(document) is Ok <==> is_collection(document),
        spec_entries(document) is Err ==> spec_entries(document) == Err::<
            Seq<EntryView>,
            ErrorKind,
        >(ErrorKind::DecodeError),
{
    if is_collection(document) {
        lemma_collection_keeps_ids_names_and_order(document);
    } else if document.spec_items() is Some {
        let items = document.spec_items()->0;
        let bad = choose|i: int|
            0 <= i < items.len() && !({
                &&& (#[trigger] items[i]).spec_text_member("id"@) is Some
                &&& items[i].spec_text_member("name"@) is Some
            });
        assert(spec_entry(items[bad]) is None);
    }
}

/// A payload decodes exactly when it may be handed to the parser, is JSON,
/// and the document it holds is a collection; it then gives the entries of
/// that collection. Every other payload is a `DecodeError`: decoding gives
/// all the entries or this error, never a part.
pub proof fn lemma_payload_decodes_whole_or_fails(payload: Seq<char>)
    ensures
        spec_decode(payload) is Ok <==> {
            &&& spec_parsable(payload)
            &&& json_parse(payload) is Some
            &&& is_collection(json_parse(payload)->0)
        },
        spec_decode(payload) is Ok ==> spec_decode(payload) == spec_entries(json_parse(payload)->0),
        spec_decode(payload) is Err ==> spec_decode(payload) == Err::<Seq<EntryView>, ErrorKind>(
            ErrorKind::DecodeError,
        ),
{
    if json_parse(payload) is Some {
        lemma_only_collections_decode(json_parse(payload)->0);
    }
}

} // verus!
