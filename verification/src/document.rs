//! JSON documents as plain data. Reading a text is left to the `json` crate;
//! what it read is copied into a tree of this library's own, and everything
//! after that works on the tree. A text with a number whose fraction the
//! parser cannot count is not handed to it and counts as not decodable.

use vstd::prelude::*;
use vstd::utf8::encode_utf8;
use json::JsonValue;
use crate::error::ErrorKind;

verus! {

/// One `key: value` pair of a JSON object.
#[derive(Debug, PartialEq, Eq)]
pub struct Member {
    pub key: String,
    pub value: Json,
}

/// A JSON document as plain data. A number is kept as the decimal parts in
/// which it was written: sign, mantissa and power of ten.
#[derive(Debug, PartialEq, Eq)]
pub enum Json {
    Null,
    Bool(bool),
    Number { positive: bool, mantissa: u64, exponent: i16 },
    Text(String),
    Array(Vec<Json>),
    Object(Vec<Member>),
}

/// The mathematical content of a [`Member`].
pub ghost struct MemberView {
    pub key: Seq<char>,
    pub value: JsonView,
}

/// The mathematical content of a [`Json`].
pub ghost enum JsonView {
    Null,
    Bool(bool),
    Number { positive: bool, mantissa: u64, exponent: i16 },
    Text(Seq<char>),
    Array(Seq<JsonView>),
    Object(Seq<MemberView>),
}

/// The content of a document: that of its parts, in the same arrangement.
pub open spec fn json_view(tree: Json) -> JsonView
    decreases tree,
{
    match tree {
        Json::Null => JsonView::Null,
        Json::Bool(flag) => JsonView::Bool(flag),
        Json::Number { positive, mantissa, exponent } => JsonView::Number {
            positive,
            mantissa,
            exponent,
        },
        Json::Text(text) => JsonView::Text(text@),
        Json::Array(items) => JsonView::Array(
            Seq::new(
                items@.len(),
                |i: int|
                    if 0 <= i < items@.len() {
                        json_view(items@[i])
                    } else {
                        JsonView::Null
                    },
            ),
        ),
        Json::Object(members) => JsonView::Object(
            Seq::new(
                members@.len(),
                |i: int|
                    if 0 <= i < members@.len() {
                        MemberView { key: members@[i].key@, value: json_view(members@[i].value) }
                    } else {
                        MemberView { key: Seq::empty(), value: JsonView::Null }
                    },
            ),
        ),
    }
}

impl View for Json {
    type V = JsonView;

    open spec fn view(&self) -> JsonView {
        json_view(*self)
    }
}

impl View for Member {
    type V = MemberView;

    open spec fn view(&self) -> MemberView {
        MemberView { key: self.key@, value: self.value@ }
    }
}

/// The contents of a list of documents, in order.
pub open spec fn trees_view(trees: Seq<Json>) -> Seq<JsonView> {
    trees.map_values(|tree: Json| tree@)
}

/// The contents of a list of members, in order.
pub open spec fn members_view(members: Seq<Member>) -> Seq<MemberView> {
    members.map_values(|member: Member| member@)
}

/// An array holds the contents of its items, an object those of its members.
pub proof fn lemma_view_of_parts(tree: Json)
    ensures
        tree matches Json::Array(items) ==> tree@ == JsonView::Array(trees_view(items@)),
        tree matches Json::Object(members) ==> tree@ == JsonView::Object(members_view(members@)),
{
    match tree {
        Json::Array(items) => {
            assert(tree@->Array_0 =~= trees_view(items@));
        },
        Json::Object(members) => {
            assert(tree@->Object_0 =~= members_view(members@));
        },
        _ => {},
    }
}

/// How many fraction digits of one number the parser can count. It counts
/// them downwards from 0 in a 16-bit exponent, so this many and no more.
pub const FRACTION_LIMIT: usize = 32768;

/// Where a scan of a text stands after some of its bytes. The scan follows
/// what the parser does with strings, and with the fraction of a number
/// whose integer part is `0`.
pub ghost enum Scan {
    /// Outside strings, the last byte nothing to remember.
    Plain,
    /// Outside strings, the last byte a digit that is part of a longer
    /// number or other than `0`.
    Digits,
    /// Outside strings, the last byte a `0` that no digit precedes.
    Zero,
    /// Inside a string.
    Text,
    /// Inside a string, just after a backslash.
    Escape,
    /// In the fraction of a number whose integer part is `0`: the mantissa
    /// as far as it was gathered, and how many digits were counted into the
    /// exponent.
    Fraction { mantissa: nat, steps: nat },
}

/// Whether a byte is an ASCII digit.
pub open spec fn is_digit(byte: u8) -> bool {
    0x30 <= byte <= 0x39
}

/// The scan after one more byte.
///
/// - A string begins and ends with `"`; within it a backslash takes the
///   byte after it along, whatever it is.
/// - A `.` after a `0` that no digit precedes begins a fraction.
/// - A digit of the fraction goes into the mantissa and is counted as long
///   as the mantissa still fits 64 bits with it. After that the digits are
///   passed over and not counted.
pub open spec fn scan_step(state: Scan, byte: u8) -> Scan {
    match state {
        Scan::Text => if byte == 0x22 {
            Scan::Plain
        } else if byte == 0x5c {
            Scan::Escape
        } else {
            Scan::Text
        },
        Scan::Escape => Scan::Text,
        Scan::Fraction { mantissa, steps } => if is_digit(byte) {
            if mantissa * 10 + (byte - 0x30) <= u64::MAX {
                Scan::Fraction {
                    mantissa: (mantissa * 10 + (byte - 0x30)) as nat,
                    steps: steps + 1,
                }
            } else {
                state
            }
        } else if byte == 0x22 {
            Scan::Text
        } else {
            Scan::Plain
        },
        _ => if byte == 0x22 {
            Scan::Text
        } else if byte == 0x30 && state is Plain {
            Scan::Zero
        } else if is_digit(byte) {
            Scan::Digits
        } else if byte == 0x2e && state is Zero {
            Scan::Fraction { mantissa: 0, steps: 0 }
        } else {
            Scan::Plain
        },
    }
}

/// The scan after the first `end` bytes.
pub open spec fn scan(bytes: Seq<u8>, end: int) -> Scan
    decreases end,
{
    if end <= 0 || end > bytes.len() {
        Scan::Plain
    } else {
        scan_step(scan(bytes, end - 1), bytes[end - 1])
    }
}

/// Whether a scan stands in a fraction with more digits counted than the
/// parser's exponent can hold.
pub open spec fn overrun(state: Scan) -> bool {
    state matches Scan::Fraction { steps, .. } && steps > FRACTION_LIMIT
}

/// Whether no fraction among the bytes overruns the exponent.
pub open spec fn fractions_within(bytes: Seq<u8>) -> bool {
    forall|end: int| 0 <= end <= bytes.len() ==> !overrun(#[trigger] scan(bytes, end))
}

/// Whether a text may be handed to the parser: written out in UTF-8, it
/// holds, outside its strings, no number `0.…` with more than
/// [`FRACTION_LIMIT`] fraction digits that count. Long strings, long
/// integers and long fractions of other numbers are all within.
pub open spec fn spec_parsable(text: Seq<char>) -> bool {
    fractions_within(encode_utf8(text))
}

/// Bytes without a `.` hold no fraction at all, so whatever else they hold,
/// they may be handed to the parser: strings, integers and everything else
/// may be of any length.
pub proof fn lemma_without_dot_within(bytes: Seq<u8>)
    requires
        forall|i: int| 0 <= i < bytes.len() ==> bytes[i] != 0x2e,
    ensures
        fractions_within(bytes),
{
    assert forall|end: int| 0 <= end <= bytes.len() implies !overrun(#[trigger] scan(bytes, end)) by {
        lemma_without_dot_no_fraction(bytes, end);
    }
}

/// Without a `.` among the bytes the scan never stands in a fraction.
proof fn lemma_without_dot_no_fraction(bytes: Seq<u8>, end: int)
    requires
        forall|i: int| 0 <= i < bytes.len() ==> bytes[i] != 0x2e,
        0 <= end <= bytes.len(),
    ensures
        !(scan(bytes, end) is Fraction),
    decreases end,
{
    if end > 0 {
        lemma_without_dot_no_fraction(bytes, end - 1);
    }
}

/// A fraction counts no more digits than the bytes scanned so far, so
/// bytes that are no more than [`FRACTION_LIMIT`] in all are within.
pub proof fn lemma_short_text_within(bytes: Seq<u8>)
    requires
        bytes.len() <= FRACTION_LIMIT,
    ensures
        fractions_within(bytes),
{
    assert forall|end: int| 0 <= end <= bytes.len() implies !overrun(#[trigger] scan(bytes, end)) by {
        lemma_steps_at_most_bytes(bytes, end);
    }
}

/// A fraction counts no more digits than the bytes scanned so far.
proof fn lemma_steps_at_most_bytes(bytes: Seq<u8>, end: int)
    requires
        0 <= end <= bytes.len(),
    ensures
        scan(bytes, end) matches Scan::Fraction { steps, .. } ==> steps <= end,
    decreases end,
{
    if end > 0 {
        lemma_steps_at_most_bytes(bytes, end - 1);
    }
}

/// The state of a scan as it is carried along.
#[derive(Clone, Copy)]
enum Scanner {
    Plain,
    Digits,
    Zero,
    Text,
    Escape,
    Fraction { mantissa: u64, steps: usize },
}

impl View for Scanner {
    type V = Scan;

    closed spec fn view(&self) -> Scan {
        match self {
            Scanner::Plain => Scan::Plain,
            Scanner::Digits => Scan::Digits,
            Scanner::Zero => Scan::Zero,
            Scanner::Text => Scan::Text,
            Scanner::Escape => Scan::Escape,
            Scanner::Fraction { mantissa, steps } => Scan::Fraction {
                mantissa: *mantissa as nat,
                steps: *steps as nat,
            },
        }
    }
}

/// Takes the scan one byte further.
fn advance(state: Scanner, byte: u8) -> (next: Scanner)
    requires
        !overrun(state@),
    ensures
        next@ == scan_step(state@, byte),
{
    let digit = 0x30 <= byte && byte <= 0x39;
    match state {
        Scanner::Text => if byte == 0x22 {
            Scanner::Plain
        } else if byte == 0x5c {
            Scanner::Escape
        } else {
            Scanner::Text
        },
        Scanner::Escape => Scanner::Text,
        Scanner::Fraction { mantissa, steps } => if digit {
            let value: u64 = (byte - 0x30) as u64;
            if mantissa <= (u64::MAX - value) / 10 {
                Scanner::Fraction { mantissa: mantissa * 10 + value, steps: steps + 1 }
            } else {
                state
            }
        } else if byte == 0x22 {
            Scanner::Text
        } else {
            Scanner::Plain
        },
        Scanner::Plain => if byte == 0x22 {
            Scanner::Text
        } else if byte == 0x30 {
            Scanner::Zero
        } else if digit {
            Scanner::Digits
        } else {
            Scanner::Plain
        },
        Scanner::Digits => if byte == 0x22 {
            Scanner::Text
        } else if digit {
            Scanner::Digits
        } else {
            Scanner::Plain
        },
        Scanner::Zero => if byte == 0x22 {
            Scanner::Text
        } else if digit {
            Scanner::Digits
        } else if byte == 0x2e {
            Scanner::Fraction { mantissa: 0, steps: 0 }
        } else {
            Scanner::Plain
        },
    }
}

/// Whether the text may be handed to the parser.
pub fn parsable(text: &str) -> (within: bool)
    ensures
        within == spec_parsable(text@),
{
    let bytes = text.as_bytes();
    let mut state = Scanner::Plain;
    let mut at: usize = 0;
    while at < bytes.len()
        invariant
            at <= bytes.len(),
            bytes@ == encode_utf8(text@),
            state@ == scan(bytes@, at as int),
            forall|end: int| 0 <= end <= at ==> !overrun(#[trigger] scan(bytes@, end)),
        decreases bytes.len() - at,
    {
        state = advance(state, bytes[at]);
        at = at + 1;
        if let Scanner::Fraction { mantissa: _, steps } = state {
            if steps > FRACTION_LIMIT {
                assert(overrun(scan(bytes@, at as int)));
                return false;
            }
        }
    }
    true
}

/// The `json` crate's value type, carried through without a look inside.
#[verifier::external_type_specification]
#[verifier::external_body]
pub struct ExJsonValue(JsonValue);

/// The `json` crate's error type. Which error it is plays no part here.
#[verifier::external_type_specification]
#[verifier::external_body]
pub struct ExJsonError(json::Error);

/// The document that the `json` crate's parser reads from a text, or `None`
/// where it rejects the text. Nothing is said of a text that may not be
/// handed to the parser (see [`spec_parsable`]).
pub uninterp spec fn json_parse(text: Seq<char>) -> Option<JsonView>;

/// What a value of the `json` crate holds.
pub uninterp spec fn json_tree(value: JsonValue) -> JsonView;

/// Calls `json::parse`. Left out are the texts on which the parser's 16-bit
/// exponent leaves its range. It goes down by one for each fraction digit
/// that the mantissa can still take, which is at most twenty of them once
/// the mantissa is above 0, and every one of them as long as it is 0: so
/// only the fraction of a number that begins `0.` can take it too far, and
/// [`spec_parsable`] follows exactly those. The claim for every other text:
/// the parser reads nothing but the text, so whether it accepts and what it
/// reads is a function of the text. It accepts exactly the texts for which
/// [`json_parse`] is `Some`, and the value it returns then holds
/// ([`json_tree`]) that document.
#[verifier::external_body]
fn parse_text(text: &str) -> (parsed: Result<JsonValue, json::Error>)
    requires
        spec_parsable(text@),
    ensures
        parsed matches Ok(value) ==> json_parse(text@) == Some(json_tree(value)),
        parsed is Err ==> json_parse(text@) is None,
{
    json::parse(text)
}

/// The outermost layer of a `JsonValue`: which kind of value it is, with its
/// scalar content or with references to its parts.
enum Shape<'a> {
    Null,
    Bool(bool),
    Number(bool, u64, i16),
    Text(&'a str),
    Array(&'a Vec<JsonValue>),
    Object(Vec<(&'a str, &'a JsonValue)>),
}

/// The content of a value whose outermost layer is the given one.
spec fn shape_view(shape: Shape) -> JsonView {
    match shape {
        Shape::Null => JsonView::Null,
        Shape::Bool(flag) => JsonView::Bool(flag),
        Shape::Number(positive, mantissa, exponent) => JsonView::Number {
            positive,
            mantissa,
            exponent,
        },
        Shape::Text(text) => JsonView::Text(text@),
        Shape::Array(items) => JsonView::Array(items@.map_values(|item: JsonValue| json_tree(item))),
        Shape::Object(entries) => JsonView::Object(
            entries@.map_values(
                |entry: (&str, &JsonValue)| MemberView { key: entry.0@, value: json_tree(*entry.1) },
            ),
        ),
    }
}

/// Tells the variants of a `json::JsonValue` apart and hands out what each
/// holds: a short string by `Short::as_str` and an owned string alike as
/// `Text`, a number as the three parts that `Number::as_parts` returns, an
/// array as its vector, an object as the pairs that `Object::iter` walks, in
/// that order. The claim: the value holds ([`json_tree`]) what this layer
/// shows, and its parts hold what [`json_tree`] says of each of them.
#[verifier::external_body]
fn shape_of<'a>(value: &'a JsonValue) -> (shape: Shape<'a>)
    ensures
        json_tree(*value) == shape_view(shape),
{
    match value {
        JsonValue::Null => Shape::Null,
        JsonValue::Boolean(flag) => Shape::Bool(*flag),
        JsonValue::Short(text) => Shape::Text(text.as_str()),
        JsonValue::String(text) => Shape::Text(text.as_str()),
        JsonValue::Number(number) => {
            let (positive, mantissa, exponent) = number.as_parts();
            Shape::Number(positive, mantissa, exponent)
        },
        JsonValue::Array(items) => Shape::Array(items),
        JsonValue::Object(object) => Shape::Object(object.iter().collect()),
    }
}

/// Copies a value of the `json` crate into a document, part by part.
fn tree_of(value: &JsonValue) -> (tree: Json)
    ensures
        tree@ == json_tree(*value),
    decreases json_tree(*value),
{
    match shape_of(value) {
        Shape::Null => Json::Null,
        Shape::Bool(flag) => Json::Bool(flag),
        Shape::Number(positive, mantissa, exponent) => Json::Number {
            positive,
            mantissa,
            exponent,
        },
        Shape::Text(text) => Json::Text(text.to_owned()),
        Shape::Array(items) => {
            let mut trees: Vec<Json> = Vec::new();
            let mut at: usize = 0;
            while at < items.len()
                invariant
                    at <= items.len(),
                    trees@.len() == at,
                    forall|i: int| 0 <= i < at ==> (#[trigger] trees@[i])@ == json_tree(items@[i]),
                    json_tree(*value) == JsonView::Array(
                        items@.map_values(|item: JsonValue| json_tree(item)),
                    ),
                decreases items.len() - at,
            {
                assert(json_tree(*value)->Array_0[at as int] == json_tree(items@[at as int]));
                trees.push(tree_of(&items[at]));
                at = at + 1;
            }
            let tree = Json::Array(trees);
            proof {
                lemma_view_of_parts(tree);
                assert(trees_view(trees@) =~= items@.map_values(|item: JsonValue| json_tree(item)));
            }
            tree
        },
        Shape::Object(entries) => {
            let mut members: Vec<Member> = Vec::new();
            let mut at: usize = 0;
            while at < entries.len()
                invariant
                    at <= entries.len(),
                    members@.len() == at,
                    forall|i: int|
                        0 <= i < at ==> (#[trigger] members@[i])@ == (MemberView {
                            key: entries@[i].0@,
                            value: json_tree(*entries@[i].1),
                        }),
                    json_tree(*value) == JsonView::Object(
                        entries@.map_values(
                            |entry: (&str, &JsonValue)|
                                MemberView { key: entry.0@, value: json_tree(*entry.1) },
                        ),
                    ),
                decreases entries.len() - at,
            {
                assert(json_tree(*value)->Object_0[at as int].value == json_tree(
                    *entries@[at as int].1,
                ));
                let key = entries[at].0.to_owned();
                let value = tree_of(entries[at].1);
                members.push(Member { key, value });
                at = at + 1;
            }
            let tree = Json::Object(members);
            proof {
                lemma_view_of_parts(tree);
                assert(members_view(members@) =~= entries@.map_values(
                    |entry: (&str, &JsonValue)|
                        MemberView { key: entry.0@, value: json_tree(*entry.1) },
                ));
            }
            tree
        },
    }
}

/// What reading a text as a document gives: the document that the parser
/// reads from it. `DecodeError` where the text is not JSON, and where it
/// holds a fraction too long for the parser to count, so that it cannot
/// be handed to the parser at all.
pub open spec fn spec_parse_document(text: Seq<char>) -> Result<JsonView, ErrorKind> {
    if !spec_parsable(text) {
        Err(ErrorKind::DecodeError)
    } else {
        match json_parse(text) {
            Some(tree) => Ok(tree),
            None => Err(ErrorKind::DecodeError),
        }
    }
}

/// The contents of the outcome of reading a document.
pub open spec fn document_outcome_view(outcome: Result<Json, ErrorKind>) -> Result<
    JsonView,
    ErrorKind,
> {
    match outcome {
        Ok(tree) => Ok(tree@),
        Err(kind) => Err(kind),
    }
}

/// Reads a text as a JSON document. A text with a fraction too long for
/// the parser to count is turned away unread.
pub fn parse_document(text: &str) -> (outcome: Result<Json, ErrorKind>)
    ensures
        document_outcome_view(outcome) == spec_parse_document(text@),
{
    if !parsable(text) {
        return Err(ErrorKind::DecodeError);
    }
    match parse_text(text) {
        Ok(value) => Ok(tree_of(&value)),
        Err(_) => Err(ErrorKind::DecodeError),
    }
}

/// The value of the first member with the given key, if there is one.
pub open spec fn first_with_key(members: Seq<MemberView>, key: Seq<char>) -> Option<JsonView>
    decreases members.len(),
{
    if members.len() == 0 {
        None
    } else if members.first().key == key {
        Some(members.first().value)
    } else {
        first_with_key(members.drop_first(), key)
    }
}

impl JsonView {
    /// The members of an array, in order; `None` for anything else.
    pub open spec fn spec_items(self) -> Option<Seq<JsonView>> {
        match self {
            JsonView::Array(items) => Some(items),
            _ => None,
        }
    }

    /// The characters of a string; `None` for anything else.
    pub open spec fn spec_text(self) -> Option<Seq<char>> {
        match self {
            JsonView::Text(text) => Some(text),
            _ => None,
        }
    }

    /// The value under a key of an object; `None` where the key is missing
    /// and for anything but an object.
    pub open spec fn spec_member(self, key: Seq<char>) -> Option<JsonView> {
        match self {
            JsonView::Object(members) => first_with_key(members, key),
            _ => None,
        }
    }

    /// The string under a key of an object; `None` where the key is missing,
    /// where its value is no string, and for anything but an object.
    pub open spec fn spec_text_member(self, key: Seq<char>) -> Option<Seq<char>> {
        match self.spec_member(key) {
            Some(value) => value.spec_text(),
            None => None,
        }
    }
}

/// Looks through the members from the first on for one with the given key.
pub fn find<'a>(members: &'a Vec<Member>, key: &String) -> (value: Option<&'a Json>)
    ensures
        value is Some == first_with_key(members_view(members@), key@) is Some,
        value matches Some(v) ==> first_with_key(members_view(members@), key@) == Some(v@),
{
    let ghost all = members_view(members@);
    let mut at: usize = 0;
    assert(all.skip(0) == all);
    while at < members.len()
        invariant
            at <= members.len(),
            all == members_view(members@),
            first_with_key(all, key@) == first_with_key(all.skip(at as int), key@),
        decreases members.len() - at,
    {
        assert(all.skip(at as int).first() == members@[at as int]@);
        if members[at].key == *key {
            return Some(&members[at].value);
        }
        assert(all.skip(at as int).drop_first() == all.skip(at + 1));
        at = at + 1;
    }
    None
}

impl Json {
    /// The members of an array.
    pub fn items(&self) -> (items: Option<&Vec<Json>>)
        ensures
            items is Some == self@.spec_items() is Some,
            items matches Some(list) ==> self@.spec_items() == Some(trees_view(list@)),
    {
        proof {
            lemma_view_of_parts(*self);
        }
        match self {
            Json::Array(items) => Some(items),
            _ => None,
        }
    }

    /// The characters of a string.
    pub fn text(&self) -> (text: Option<&String>)
        ensures
            text is Some == self@.spec_text() is Some,
            text matches Some(t) ==> self@.spec_text() == Some(t@),
    {
        match self {
            Json::Text(text) => Some(text),
            _ => None,
        }
    }

    /// The value under a key of an object.
    pub fn member(&self, key: &String) -> (value: Option<&Json>)
        ensures
            value is Some == self@.spec_member(key@) is Some,
            value matches Some(v) ==> self@.spec_member(key@) == Some(v@),
    {
        proof {
            lemma_view_of_parts(*self);
        }
        match self {
            Json::Object(members) => find(members, key),
            _ => None,
        }
    }

    /// The string under a key of an object.
    pub fn text_member(&self, key: &String) -> (text: Option<&String>)
        ensures
            text is Some == self@.spec_text_member(key@) is Some,
            text matches Some(t) ==> self@.spec_text_member(key@) == Some(t@),
    {
        match self.member(key) {
            Some(value) => value.text(),
            None => None,
        }
    }
}

} // verus!
