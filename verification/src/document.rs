//! JSON documents: a mathematical model of a JSON value, and the calls into
//! `serde_json` that read, build, parse and print one.

use crate::error::DecodeError;
use vstd::prelude::*;

verus! {

/// A JSON value as a mathematical object.
///
/// A number that is not an unsigned 64-bit integer is `OtherNumber`: no
/// message field holds one, so nothing more is kept of it.
pub enum Json {
    Null,
    Bool(bool),
    Number(u64),
    OtherNumber,
    Text(Seq<char>),
    List(Seq<Json>),
    Object(Seq<(Seq<char>, Json)>),
}

/// The value of the first entry under `key`, if there is one.
pub open spec fn lookup(entries: Seq<(Seq<char>, Json)>, key: Seq<char>) -> Option<Json>
    decreases entries.len(),
{
    if entries.len() == 0 {
        None
    } else if entries[0].0 == key {
        Some(entries[0].1)
    } else {
        lookup(entries.drop_first(), key)
    }
}

/// No two entries have the same key.
pub open spec fn distinct_keys(entries: Seq<(Seq<char>, Json)>) -> bool {
    forall|i: int, j: int|
        0 <= i < j < entries.len() ==> (#[trigger] entries[i]).0 != (#[trigger] entries[j]).0
}

impl Json {
    /// The member of an object under `key`; `None` for a key that is not
    /// there and for a value that is not an object.
    pub open spec fn field(self, key: Seq<char>) -> Option<Json> {
        match self {
            Json::Object(entries) => lookup(entries, key),
            _ => None,
        }
    }

    /// The string under `key`.
    pub open spec fn text_field(self, key: Seq<char>) -> Result<Seq<char>, DecodeError> {
        match self.field(key) {
            None => Err(DecodeError::MissingField),
            Some(Json::Text(s)) => Ok(s),
            Some(_) => Err(DecodeError::WrongType),
        }
    }

    /// The unsigned integer under `key`.
    pub open spec fn number_field(self, key: Seq<char>) -> Result<u64, DecodeError> {
        match self.field(key) {
            None => Err(DecodeError::MissingField),
            Some(Json::Number(n)) => Ok(n),
            Some(_) => Err(DecodeError::WrongType),
        }
    }

    /// The value is one that its text carries whole: every number in it is an
    /// unsigned 64-bit integer, no object in it has a key twice, and arrays
    /// and objects are nested at most `depth` deep.
    pub open spec fn faithful(self, depth: nat) -> bool
        decreases depth,
    {
        match self {
            Json::OtherNumber => false,
            Json::List(items) => depth > 0 && forall|i: int|
                0 <= i < items.len() ==> (#[trigger] items[i]).faithful((depth - 1) as nat),
            Json::Object(entries) => depth > 0 && distinct_keys(entries) && forall|i: int|
                0 <= i < entries.len() ==> (#[trigger] entries[i]).1.faithful((depth - 1) as nat),
            _ => true,
        }
    }
}

/// An entry is found under its key when no entry before it has that key.
pub proof fn lemma_lookup_first(entries: Seq<(Seq<char>, Json)>, i: int)
    requires
        0 <= i < entries.len(),
        forall|j: int| 0 <= j < i ==> (#[trigger] entries[j]).0 != entries[i].0,
    ensures
        lookup(entries, entries[i].0) == Some(entries[i].1),
    decreases i,
{
    if i > 0 {
        let rest = entries.drop_first();
        assert forall|j: int| 0 <= j < i - 1 implies (#[trigger] rest[j]).0 != rest[i - 1].0 by {
            assert(rest[j] == entries[j + 1]);
        }
        lemma_lookup_first(rest, i - 1);
    }
}

/// `serde_json::Value`, which the verifier cannot look into. With the
/// feature `preserve_order`, which this crate asks for, an object keeps its
/// members in the order in which they were put in.
#[verifier::external_type_specification]
#[verifier::external_body]
pub struct ExValue(serde_json::Value);

/// What a `serde_json::Value` holds: the members of an object in their
/// order, the items of an array in theirs.
pub uninterp spec fn json_model(v: serde_json::Value) -> Json;

/// The compact text that `serde_json::to_string` gives for a value.
pub uninterp spec fn json_text(doc: Json) -> Seq<char>;

/// The value that `serde_json::from_str` reads from a text, if it reads one.
pub uninterp spec fn json_parse(text: Seq<char>) -> Option<Json>;

/// What a vector of entries holds, entry by entry.
pub open spec fn entries_model(entries: Seq<(String, serde_json::Value)>) -> Seq<(Seq<char>, Json)> {
    Seq::new(entries.len(), |i: int| (entries[i].0@, json_model(entries[i].1)))
}

/// `serde_json::from_str` at the type `serde_json::Value`, its error
/// dropped. Trusted: the value read is the one named by `json_parse`, and the
/// text that `serde_json::to_string` gives for a faithful value of at most
/// two levels is read back as that value.
#[verifier::external_body]
pub(crate) fn parse_document(text: &str) -> (r: Option<serde_json::Value>)
    ensures
        match r {
            Some(v) => json_parse(text@) == Some(json_model(v)),
            None => json_parse(text@) is None,
        },
        forall|doc: Json|
            doc.faithful(2) && text@ == #[trigger] json_text(doc) ==> (match r {
                Some(v) => json_model(v) == doc,
                None => false,
            }),
{
    serde_json::from_str::<serde_json::Value>(text).ok()
}

/// `serde_json::to_string` on a `serde_json::Value`, its error dropped.
/// Trusted: a faithful value of at most two levels has a text, the one named
/// by `json_text`.
#[verifier::external_body]
pub(crate) fn print_document(v: &serde_json::Value) -> (r: Option<String>)
    ensures
        match r {
            Some(s) => json_model(*v).faithful(2) ==> s@ == json_text(json_model(*v)),
            None => !json_model(*v).faithful(2),
        },
{
    serde_json::to_string(v).ok()
}

/// `serde_json::Value::get` with a string index. Trusted: it gives the
/// member under `key` of an object, and `None` for a key that is not there
/// and for a value that is not an object.
#[verifier::external_body]
pub(crate) fn value_get<'a>(v: &'a serde_json::Value, key: &str) -> (r: Option<
    &'a serde_json::Value,
>)
    ensures
        match r {
            Some(member) => json_model(*v).field(key@) == Some(json_model(*member)),
            None => json_model(*v).field(key@) is None,
        },
{
    v.get(key)
}

/// `serde_json::Value::as_str`. Trusted: it gives the string if the value
/// is one, and `None` for any other value.
#[verifier::external_body]
pub(crate) fn value_as_text<'a>(v: &'a serde_json::Value) -> (r: Option<&'a str>)
    ensures
        match r {
            Some(s) => json_model(*v) == Json::Text(s@),
            None => !(json_model(*v) is Text),
        },
{
    v.as_str()
}

/// `serde_json::Value::as_u64`. Trusted: it gives the number if the value
/// is an integer from 0 to `u64::MAX`, and `None` for any other value.
#[verifier::external_body]
pub(crate) fn value_as_number(v: &serde_json::Value) -> (r: Option<u64>)
    ensures
        match r {
            Some(n) => json_model(*v) == Json::Number(n),
            None => !(json_model(*v) is Number),
        },
{
    v.as_u64()
}

/// The variant `serde_json::Value::String`. Trusted: the value holds the
/// string.
#[verifier::external_body]
pub(crate) fn text_value(s: String) -> (r: serde_json::Value)
    ensures
        json_model(r) == Json::Text(s@),
{
    serde_json::Value::String(s)
}

/// `serde_json::Value::from` on a `u64`. Trusted: the value holds the
/// number.
#[verifier::external_body]
pub(crate) fn number_value(n: u64) -> (r: serde_json::Value)
    ensures
        json_model(r) == Json::Number(n),
{
    serde_json::Value::from(n)
}

/// The variant `serde_json::Value::Object` over the `serde_json::Map` that
/// `collect` makes of the entries. Trusted: entries with distinct keys become
/// the members of the object, in their order.
#[verifier::external_body]
pub(crate) fn object_value(entries: Vec<(String, serde_json::Value)>) -> (r: serde_json::Value)
    ensures
        distinct_keys(entries_model(entries@)) ==> json_model(r) == Json::Object(
            entries_model(entries@),
        ),
{
    serde_json::Value::Object(entries.into_iter().collect())
}

/// Reads the string under `key`.
pub fn text_field(doc: &serde_json::Value, key: &str) -> (r: Result<String, DecodeError>)
    ensures
        match r {
            Ok(s) => json_model(*doc).text_field(key@) == Ok::<Seq<char>, DecodeError>(s@),
            Err(e) => json_model(*doc).text_field(key@) == Err::<Seq<char>, DecodeError>(e),
        },
{
    match value_get(doc, key) {
        None => Err(DecodeError::MissingField),
        Some(member) => match value_as_text(member) {
            None => Err(DecodeError::WrongType),
            Some(s) => Ok(s.to_owned()),
        },
    }
}

/// Reads the unsigned integer under `key`.
pub fn number_field(doc: &serde_json::Value, key: &str) -> (r: Result<u64, DecodeError>)
    ensures
        r == json_model(*doc).number_field(key@),
{
    match value_get(doc, key) {
        None => Err(DecodeError::MissingField),
        Some(member) => match value_as_number(member) {
            None => Err(DecodeError::WrongType),
            Some(n) => Ok(n),
        },
    }
}

} // verus!
