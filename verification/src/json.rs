//! JSON documents as the engine sees them: a mathematical model, the calls
//! into the parser, and the typed reading of an object's members.

use crate::error::{Failure, RedfishError};
use vstd::prelude::*;
use vstd::string::*;

verus! {

/// A JSON document as a mathematical value.
pub enum Json {
    Null,
    Bool(bool),
    /// A number held as an integer.
    Int(int),
    /// Any other number.
    Real,
    Text(Seq<char>),
    Array(Seq<Json>),
    Object(Map<Seq<char>, Json>),
}

/// `serde_json::Value`, a JSON value in memory. Nothing inside it is
/// visible here: what it holds is `json_of` of it.
#[verifier::external_type_specification]
#[verifier::external_body]
pub struct ExValue(serde_json::Value);

/// `serde_json::Error`, what the parser says of a text that it cannot read.
#[verifier::external_type_specification]
#[verifier::external_body]
pub struct ExParseError(serde_json::Error);

/// The document that a `serde_json::Value` holds. A number that the value
/// holds as an integer is an `Int`, any other number is `Real`; the members
/// of an object are found under their keys, the items of an array at their
/// positions.
pub uninterp spec fn json_of(v: serde_json::Value) -> Json;

/// What a `serde_json::Error` says: its `Display` text.
pub uninterp spec fn words_of(e: serde_json::Error) -> Seq<char>;

/// What `serde_json::from_str` makes of a text: the document that it reads,
/// or what it says of a text that it cannot read.
pub uninterp spec fn json_text(text: Seq<char>) -> Result<Json, Seq<char>>;

/// `serde_json::from_str` for a `Value`: what it hands back is what it
/// makes of the text, be that a document or an error.
#[verifier::external_body]
fn from_text(text: &str) -> (r: Result<serde_json::Value, serde_json::Error>)
    ensures
        match r {
            Ok(v) => json_text(text@) == Ok::<Json, Seq<char>>(json_of(v)),
            Err(e) => json_text(text@) == Err::<Json, Seq<char>>(words_of(e)),
        },
{
    serde_json::from_str::<serde_json::Value>(text)
}

/// The `Display` text of a `serde_json::Error`: what the error says.
#[verifier::external_body]
fn describe(e: &serde_json::Error) -> (r: String)
    ensures
        r@ == words_of(*e),
{
    format!("{}", e)
}

/// `Value::get` with a string key: the member of an object under that
/// key; none where the value is no object or has no such member.
#[verifier::external_body]
fn member<'a>(v: &'a serde_json::Value, key: &str) -> (r: Option<&'a serde_json::Value>)
    ensures
        r is Some <==> (json_of(*v) is Object && json_of(*v)->Object_0.contains_key(key@)),
        r is Some ==> json_of(*r->Some_0) == json_of(*v)->Object_0[key@],
{
    v.get(key)
}

/// `Value::is_object`: whether the value is an object.
#[verifier::external_body]
pub(crate) fn is_object(v: &serde_json::Value) -> (r: bool)
    ensures
        r == (json_of(*v) is Object),
{
    v.is_object()
}

/// `Value::is_null`: whether the value is null.
#[verifier::external_body]
fn is_null(v: &serde_json::Value) -> (r: bool)
    ensures
        r == (json_of(*v) is Null),
{
    v.is_null()
}

/// `Value::as_str`: the text of a string value; none for any other value.
#[verifier::external_body]
fn as_str<'a>(v: &'a serde_json::Value) -> (r: Option<&'a str>)
    ensures
        r is Some <==> json_of(*v) is Text,
        r is Some ==> r->Some_0@ == json_of(*v)->Text_0,
{
    v.as_str()
}

/// `Value::as_bool`: the value of a boolean; none for any other value.
#[verifier::external_body]
pub(crate) fn as_bool(v: &serde_json::Value) -> (r: Option<bool>)
    ensures
        r is Some <==> json_of(*v) is Bool,
        r is Some ==> r->Some_0 == json_of(*v)->Bool_0,
{
    v.as_bool()
}

/// `Value::as_i64`: the value of a number held as an integer that fits in
/// 64 bits with a sign; none for any other value.
#[verifier::external_body]
fn as_i64(v: &serde_json::Value) -> (r: Option<i64>)
    ensures
        r is Some <==> (json_of(*v) is Int && i64::MIN <= json_of(*v)->Int_0 <= i64::MAX),
        r is Some ==> r->Some_0 == json_of(*v)->Int_0,
{
    v.as_i64()
}

/// `Value::as_array`: the items of an array, in order; none for any other
/// value.
#[verifier::external_body]
pub(crate) fn as_array<'a>(v: &'a serde_json::Value) -> (r: Option<&'a Vec<serde_json::Value>>)
    ensures
        r is Some <==> json_of(*v) is Array,
        r is Some ==> r->Some_0@.len() == json_of(*v)->Array_0.len(),
        r is Some ==> forall|i: int|
            0 <= i < r->Some_0@.len() ==> json_of(#[trigger] r->Some_0@[i]) == json_of(
                *v,
            )->Array_0[i],
{
    v.as_array()
}

/// Reads a text as a JSON document. Fails with `Malformed` exactly where
/// the text holds no document, and then with what the parser says of it.
pub fn parse(text: &str) -> (r: Result<serde_json::Value, RedfishError>)
    ensures
        match r {
            Ok(v) => json_text(text@) == Ok::<Json, Seq<char>>(json_of(v)),
            Err(e) => json_text(text@) is Err && e@ == Failure::Malformed(
                json_text(text@)->Err_0,
            ),
        },
{
    match from_text(text) {
        Ok(v) => Ok(v),
        Err(e) => Err(RedfishError::Malformed(describe(&e))),
    }
}

/// The member of an object under a key, where it is there and not null.
/// A member that is null counts as not reported.
pub open spec fn field(j: Json, key: Seq<char>) -> Option<Json> {
    if j is Object && j->Object_0.contains_key(key) && !(j->Object_0[key] is Null) {
        Some(j->Object_0[key])
    } else {
        None
    }
}

/// A document read as a text.
pub open spec fn text_of(j: Json) -> Option<Seq<char>> {
    match j {
        Json::Text(s) => Some(s),
        _ => None,
    }
}

/// A document read as a boolean.
pub open spec fn flag_of(j: Json) -> Option<bool> {
    match j {
        Json::Bool(b) => Some(b),
        _ => None,
    }
}

/// A document read as a 32-bit integer.
pub open spec fn number_of(j: Json) -> Option<i32> {
    match j {
        Json::Int(n) => if i32::MIN <= n <= i32::MAX {
            Some(n as i32)
        } else {
            None
        },
        _ => None,
    }
}

/// A document read as a list, each item read by `item`. It is a list only
/// if it is an array and every item reads.
pub open spec fn list_of<T>(j: Json, item: spec_fn(Json) -> Option<T>) -> Option<Seq<T>> {
    match j {
        Json::Array(items) => if forall|i: int|
            0 <= i < items.len() ==> item(#[trigger] items[i]) is Some {
            Some(Seq::new(items.len(), |i: int| item(items[i])->Some_0))
        } else {
            None
        },
        _ => None,
    }
}

/// A document read as a list of texts.
pub open spec fn texts_of(j: Json) -> Option<Seq<Seq<char>>> {
    list_of(j, |x: Json| text_of(x))
}

/// A member that must be there: it reads as `read` reads it.
pub open spec fn required<T>(f: Option<Json>, read: spec_fn(Json) -> Option<T>) -> Option<T> {
    match f {
        Some(x) => read(x),
        None => None,
    }
}

/// A member that may be missing. The outer level says whether the object
/// is acceptable: a missing member is, and reads as absent; a member that
/// is there must read.
pub open spec fn optional<T>(
    f: Option<Json>,
    read: spec_fn(Json) -> Option<T>,
) -> Option<Option<T>> {
    match f {
        Some(x) => match read(x) {
            Some(t) => Some(Some(t)),
            None => None,
        },
        None => Some(None),
    }
}

/// The member under `key`, where it is there and not null.
pub fn get_field<'a>(v: &'a serde_json::Value, key: &str) -> (r: Option<&'a serde_json::Value>)
    ensures
        match r {
            Some(x) => field(json_of(*v), key@) == Some(json_of(*x)),
            None => field(json_of(*v), key@) is None,
        },
{
    match member(v, key) {
        Some(x) => if is_null(x) {
            None
        } else {
            Some(x)
        },
        None => None,
    }
}

/// A value read as a text.
pub fn read_text(v: &serde_json::Value) -> (r: Option<String>)
    ensures
        r.deep_view() == text_of(json_of(*v)),
{
    match as_str(v) {
        Some(s) => Some(s.to_owned()),
        None => None,
    }
}

/// A value read as a 32-bit integer.
pub fn read_number(v: &serde_json::Value) -> (r: Option<i32>)
    ensures
        r == number_of(json_of(*v)),
{
    match as_i64(v) {
        Some(n) => if -2147483648 <= n && n <= 2147483647 {
            Some(n as i32)
        } else {
            None
        },
        None => None,
    }
}

/// A value read as a list of texts.
pub fn read_texts(v: &serde_json::Value) -> (r: Option<Vec<String>>)
    ensures
        r.deep_view() == texts_of(json_of(*v)),
{
    match as_array(v) {
        Some(items) => {
            let ghost all = json_of(*v)->Array_0;
            let mut out: Vec<String> = Vec::new();
            let mut i: usize = 0;
            while i < items.len()
                invariant
                    i <= items.len(),
                    json_of(*v) == Json::Array(all),
                    items@.len() == all.len(),
                    forall|k: int| 0 <= k < items@.len() ==> json_of(#[trigger] items@[k]) == all[k],
                    out@.len() == i,
                    forall|k: int| 0 <= k < i ==> text_of(#[trigger] all[k]) == Some(out@[k]@),
                decreases items.len() - i,
            {
                match read_text(&items[i]) {
                    Some(s) => {
                        out.push(s);
                    },
                    None => {
                        assert(texts_of(json_of(*v)) is None) by {
                            let item = |x: Json| text_of(x);
                            assert(item(all[i as int]) is None);
                        }
                        return None;
                    },
                }
                i = i + 1;
            }
            assert(out.deep_view() =~= texts_of(json_of(*v))->Some_0);
            Some(out)
        },
        None => None,
    }
}

/// The member under `key` as a text that must be there.
pub fn text_field(v: &serde_json::Value, key: &str) -> (r: Option<String>)
    ensures
        r.deep_view() == required(field(json_of(*v), key@), |x: Json| text_of(x)),
{
    match get_field(v, key) {
        Some(x) => read_text(x),
        None => None,
    }
}

/// The member under `key` as a text that may be missing.
pub fn text_option(v: &serde_json::Value, key: &str) -> (r: Option<Option<String>>)
    ensures
        r.deep_view() == optional(field(json_of(*v), key@), |x: Json| text_of(x)),
{
    match get_field(v, key) {
        Some(x) => match read_text(x) {
            Some(s) => Some(Some(s)),
            None => None,
        },
        None => Some(None),
    }
}

/// The member under `key` as a number that must be there.
pub fn number_field(v: &serde_json::Value, key: &str) -> (r: Option<i32>)
    ensures
        r == required(field(json_of(*v), key@), |x: Json| number_of(x)),
{
    match get_field(v, key) {
        Some(x) => read_number(x),
        None => None,
    }
}

/// The member under `key` as a number that may be missing.
pub fn number_option(v: &serde_json::Value, key: &str) -> (r: Option<Option<i32>>)
    ensures
        r == optional(field(json_of(*v), key@), |x: Json| number_of(x)),
{
    match get_field(v, key) {
        Some(x) => match read_number(x) {
            Some(n) => Some(Some(n)),
            None => None,
        },
        None => Some(None),
    }
}

/// The member under `key` as a boolean that must be there.
pub fn flag_field(v: &serde_json::Value, key: &str) -> (r: Option<bool>)
    ensures
        r == required(field(json_of(*v), key@), |x: Json| flag_of(x)),
{
    match get_field(v, key) {
        Some(x) => as_bool(x),
        None => None,
    }
}

/// The member under `key` as a boolean that may be missing.
pub fn flag_option(v: &serde_json::Value, key: &str) -> (r: Option<Option<bool>>)
    ensures
        r == optional(field(json_of(*v), key@), |x: Json| flag_of(x)),
{
    match get_field(v, key) {
        Some(x) => match as_bool(x) {
            Some(b) => Some(Some(b)),
            None => None,
        },
        None => Some(None),
    }
}

/// The member under `key` as a list of texts that must be there.
pub fn texts_field(v: &serde_json::Value, key: &str) -> (r: Option<Vec<String>>)
    ensures
        r.deep_view() == required(field(json_of(*v), key@), |x: Json| texts_of(x)),
{
    match get_field(v, key) {
        Some(x) => read_texts(x),
        None => None,
    }
}

/// The member under `key` as a list of texts that may be missing.
pub fn texts_option(v: &serde_json::Value, key: &str) -> (r: Option<Option<Vec<String>>>)
    ensures
        r.deep_view() == optional(field(json_of(*v), key@), |x: Json| texts_of(x)),
{
    match get_field(v, key) {
        Some(x) => match read_texts(x) {
            Some(s) => Some(Some(s)),
            None => None,
        },
        None => Some(None),
    }
}

} // verus!
