//! The JSON text layer: reading and writing single JSON values with `serde_json`.
//!
//! Everything above this module works on the text of JSON values. What such a text means is left
//! to `serde_json`, which is called here and nowhere else.

use crate::object::{object_text, Member};
use serde_json::value::RawValue;
use vstd::prelude::*;
use vstd::utf8::encode_utf8;

verus! {

/// A text is not the JSON that was asked for. What `serde_json` says about it is not kept.
#[derive(Clone, Copy, Debug, PartialEq, Eq)]
pub struct JsonError;

/// A JSON value in memory.
#[verifier::external_type_specification]
#[verifier::external_body]
pub struct ExValue(serde_json::Value);

// JSON values by their shape ---------------------------------------------------------------------
/// A JSON object in memory.
#[verifier::external_type_specification]
#[verifier::external_body]
#[verifier::reject_recursive_types(K)]
#[verifier::reject_recursive_types(V)]
pub struct ExObject<K, V>(serde_json::Map<K, V>);

/// The members of a JSON object in memory.
pub uninterp spec fn object_entries(
    object: serde_json::Map<String, serde_json::Value>,
) -> Map<Seq<char>, serde_json::Value>;

/// Calls `serde_json::Map::remove`: the member of that name is taken out, if there is one, and the
/// others stay.
#[verifier::external_body]
pub(crate) fn object_remove(
    object: &mut serde_json::Map<String, serde_json::Value>,
    name: &str,
) -> (res: Option<serde_json::Value>)
    ensures
        object_entries(*final(object)) == object_entries(*old(object)).remove(name@),
        res is Some <==> object_entries(*old(object)).contains_key(name@),
        res matches Some(value) ==> value == object_entries(*old(object))[name@],
{
    object.remove(name)
}

/// Calls `serde_json::Map::is_empty`: there is no member.
#[verifier::external_body]
pub(crate) fn object_is_empty(object: &serde_json::Map<String, serde_json::Value>) -> (res: bool)
    ensures
        res == (forall|name: Seq<char>| !#[trigger] object_entries(*object).contains_key(name)),
{
    object.is_empty()
}

/// A JSON value by its kind: with its members or elements if it is an object or an array
pub enum Shape {
    Object(serde_json::Map<String, serde_json::Value>),
    Array(Vec<serde_json::Value>),
    Null,
    Other,
}

/// What a JSON value is: of an object or an array, also what it consists of.
pub enum ShapeView {
    Object(Map<Seq<char>, serde_json::Value>),
    Array(Seq<serde_json::Value>),
    Null,
    Other,
}

impl View for Shape {
    type V = ShapeView;

    open spec fn view(&self) -> ShapeView {
        match *self {
            Shape::Object(object) => ShapeView::Object(object_entries(object)),
            Shape::Array(items) => ShapeView::Array(items@),
            Shape::Null => ShapeView::Null,
            Shape::Other => ShapeView::Other,
        }
    }
}

/// What a `serde_json::Value` consists of, as its variants show it.
pub uninterp spec fn value_shape(value: serde_json::Value) -> ShapeView;

/// Tells the variants of a `serde_json::Value` apart: the members of an object and the elements of
/// an array are what [`value_shape`] has, and null is told from the values of other kinds.
#[verifier::external_body]
pub(crate) fn shape(value: serde_json::Value) -> (res: Shape)
    ensures
        res@ == value_shape(value),
{
    match value {
        serde_json::Value::Object(object) => Shape::Object(object),
        serde_json::Value::Array(items) => Shape::Array(items),
        serde_json::Value::Null => Shape::Null,
        serde_json::Value::Bool(_) => Shape::Other,
        serde_json::Value::Number(_) => Shape::Other,
        serde_json::Value::String(_) => Shape::Other,
    }
}

/// Calls `serde_json::Value::is_null`: the value is null.
#[verifier::external_body]
pub(crate) fn value_is_null(value: &serde_json::Value) -> (res: bool)
    ensures
        res == (value_shape(*value) is Null),
{
    value.is_null()
}

// Reading ----------------------------------------------------------------------------------------
/// The texts of the elements of the JSON array that `bytes` hold, as
/// `serde_json::from_slice::<Vec<&RawValue>>` reads them; `None` where it fails.
pub uninterp spec fn json_array(bytes: Seq<u8>) -> Option<Seq<Seq<char>>>;

/// The text of the one JSON value that `bytes` hold, as `serde_json::from_slice::<&RawValue>`
/// reads it; `None` where it fails.
pub uninterp spec fn json_single(bytes: Seq<u8>) -> Option<Seq<char>>;

/// The text of the first JSON value of `bytes`, with the number of bytes up to its end, as the
/// first step of a `serde_json::StreamDeserializer` over raw values reads it; `None` where that
/// step finds no value.
pub uninterp spec fn json_prefix(bytes: Seq<u8>) -> Option<(Seq<char>, int)>;

/// The string that the JSON text `text` denotes, as `serde_json::from_str::<String>` reads it.
pub uninterp spec fn json_string(text: Seq<char>) -> Option<Seq<char>>;

/// The string that the JSON text `text` spells out without an escape, as
/// `serde_json::from_str::<&str>` reads it.
pub uninterp spec fn json_plain_string(text: Seq<char>) -> Option<Seq<char>>;

/// The integer that the JSON text `text` denotes, as `serde_json::from_str::<i64>` reads it.
pub uninterp spec fn json_i64(text: Seq<char>) -> Option<i64>;

/// The JSON value that the text `text` denotes, or `None` inside for null, as
/// `serde_json::from_str::<Option<Value>>` reads it.
pub uninterp spec fn json_value(text: Seq<char>) -> Option<Option<serde_json::Value>>;

/// The JSON value that is read from `value`, or `None` inside for null, as
/// `serde_json::from_value::<Option<Value>>` reads it.
pub uninterp spec fn json_value_again(value: serde_json::Value) -> Option<
    Option<serde_json::Value>,
>;

/// `byte` is one of the marks that follow a key or a value inside a JSON object.
pub open spec fn is_mark(byte: u8) -> bool {
    byte == 0x2c || byte == 0x3a || byte == 0x7d
}

/// `text` is the text of one JSON value: it is not empty, and alone or before a mark of an object
/// it is read back as it is.
pub open spec fn is_value_text(text: Seq<char>) -> bool {
    &&& text.len() > 0
    &&& json_single(encode_utf8(text)) == Some(text)
    &&& forall|rest: Seq<u8>|
        rest.len() > 0 && is_mark(rest[0]) ==> #[trigger] json_prefix(encode_utf8(text) + rest)
            == Some((text, encode_utf8(text).len() as int))
}

/// `bytes` are the text of an object, written without spaces, and every value in it is the text of
/// a JSON value.
pub open spec fn is_object_bytes(bytes: Seq<u8>, members: Seq<Member>) -> bool {
    &&& bytes == encode_utf8(object_text(members))
    &&& forall|i: int| 0 <= i < members.len() ==> is_value_text((#[trigger] members[i]).1)
}

/// Calls `serde_json::from_slice::<Vec<&RawValue>>`. It succeeds exactly where [`json_array`] has
/// a value, and then returns those texts, each of which is the text of one JSON value.
#[verifier::external_body]
pub(crate) fn read_array<'a>(bytes: &'a [u8]) -> (res: Result<Vec<&'a str>, JsonError>)
    ensures
        res is Ok <==> json_array(bytes@) is Some,
        res matches Ok(texts) ==> json_array(bytes@) == Some(
            texts@.map_values(|t: &'a str| t@),
        ),
        res matches Ok(texts) ==> forall|i: int|
            0 <= i < texts.len() ==> is_value_text(#[trigger] texts@[i]@),
{
    serde_json::from_slice::<Vec<&'a RawValue>>(bytes)
        .map(|raws| raws.into_iter().map(|raw| raw.get()).collect())
        .map_err(|_| JsonError)
}

/// Calls `serde_json::from_slice::<&RawValue>`. It succeeds exactly where [`json_single`] has a
/// value, and then returns that text. The text of an object, written without spaces and with the
/// texts of JSON values in it, is returned as it is.
#[verifier::external_body]
pub(crate) fn read_single<'a>(bytes: &'a [u8]) -> (res: Result<&'a str, JsonError>)
    ensures
        res is Ok <==> json_single(bytes@) is Some,
        res matches Ok(text) ==> json_single(bytes@) == Some(text@),
        forall|members: Seq<Member>| #[trigger]
            is_object_bytes(bytes@, members) ==> res is Ok,
        res matches Ok(text) ==> forall|members: Seq<Member>| #[trigger]
            is_object_bytes(bytes@, members) ==> text@ == object_text(members),
{
    serde_json::from_slice::<&'a RawValue>(bytes).map(|raw| raw.get()).map_err(|_| JsonError)
}

/// Calls `next` once on a `serde_json::StreamDeserializer` over `bytes`. It yields a value exactly
/// where [`json_prefix`] has one: its text, which is the text of one JSON value, and the
/// `byte_offset` behind it, which is past the first byte and within `bytes`.
#[verifier::external_body]
pub(crate) fn read_prefix<'a>(bytes: &'a [u8]) -> (res: Option<(&'a str, usize)>)
    ensures
        res is Some <==> json_prefix(bytes@) is Some,
        res matches Some((text, end)) ==> {
            &&& json_prefix(bytes@) == Some((text@, end as int))
            &&& 0 < end <= bytes@.len()
            &&& is_value_text(text@)
        },
{
    let mut stream = serde_json::Deserializer::from_slice(bytes).into_iter::<&'a RawValue>();
    let first = stream.next();
    let end = stream.byte_offset();
    match first {
        Some(Ok(raw)) => Some((raw.get(), end)),
        Some(Err(_)) => None,
        None => None,
    }
}

/// Calls `serde_json::from_str::<String>`: the string is [`json_string`].
#[verifier::external_body]
pub(crate) fn read_string(text: &str) -> (res: Result<String, JsonError>)
    ensures
        res is Ok <==> json_string(text@) is Some,
        res matches Ok(s) ==> json_string(text@) == Some(s@),
{
    serde_json::from_str::<String>(text).map_err(|_| JsonError)
}

/// Calls `serde_json::from_str::<&str>`: the string is [`json_plain_string`].
#[verifier::external_body]
pub(crate) fn read_plain_string<'a>(text: &'a str) -> (res: Result<&'a str, JsonError>)
    ensures
        res is Ok <==> json_plain_string(text@) is Some,
        res matches Ok(s) ==> json_plain_string(text@) == Some(s@),
{
    serde_json::from_str::<&'a str>(text).map_err(|_| JsonError)
}

/// Calls `serde_json::from_str::<i64>`: the number is [`json_i64`].
#[verifier::external_body]
pub(crate) fn read_i64(text: &str) -> (res: Result<i64, JsonError>)
    ensures
        res is Ok <==> json_i64(text@) is Some,
        res matches Ok(n) ==> json_i64(text@) == Some(n),
{
    serde_json::from_str::<i64>(text).map_err(|_| JsonError)
}

/// Calls `serde_json::from_str::<Option<Value>>`: the value is [`json_value`].
#[verifier::external_body]
pub(crate) fn read_value_text(text: &str) -> (res: Result<Option<serde_json::Value>, JsonError>)
    ensures
        res is Ok <==> json_value(text@) is Some,
        res matches Ok(value) ==> json_value(text@) == Some(value),
{
    serde_json::from_str::<Option<serde_json::Value>>(text).map_err(|_| JsonError)
}

/// Calls `serde_json::from_value::<Option<Value>>` on a clone: the value is [`json_value_again`].
#[verifier::external_body]
pub(crate) fn read_value_again(value: &serde_json::Value) -> (res: Result<
    Option<serde_json::Value>,
    JsonError,
>)
    ensures
        res is Ok <==> json_value_again(*value) is Some,
        res matches Ok(again) ==> json_value_again(*value) == Some(again),
{
    serde_json::from_value::<Option<serde_json::Value>>(value.clone()).map_err(|_| JsonError)
}

// Writing ----------------------------------------------------------------------------------------
/// The lower-case hexadecimal digit for `n`.
pub open spec fn hex_digit(n: int) -> char {
    if n < 10 {
        (48 + n) as u8 as char
    } else {
        (87 + n) as u8 as char
    }
}

/// What stands for the character `c` inside a JSON string.
pub open spec fn escaped_char(c: char) -> Seq<char> {
    let code = c as int;
    if c == '"' {
        seq!['\\', '"']
    } else if c == '\\' {
        seq!['\\', '\\']
    } else if code == 0x08 {
        seq!['\\', 'b']
    } else if code == 0x09 {
        seq!['\\', 't']
    } else if code == 0x0a {
        seq!['\\', 'n']
    } else if code == 0x0c {
        seq!['\\', 'f']
    } else if code == 0x0d {
        seq!['\\', 'r']
    } else if code < 0x20 {
        seq!['\\', 'u', '0', '0', hex_digit(code / 16), hex_digit(code % 16)]
    } else {
        seq![c]
    }
}

/// What stands for the string `s` between the quotes of a JSON string.
pub open spec fn escaped(s: Seq<char>) -> Seq<char>
    decreases s.len(),
{
    if s.len() == 0 {
        Seq::empty()
    } else {
        escaped(s.drop_last()) + escaped_char(s.last())
    }
}

/// The JSON text of the string `s`.
pub open spec fn quoted(s: Seq<char>) -> Seq<char> {
    seq!['"'] + escaped(s) + seq!['"']
}

/// The decimal digits of `n`, without leading zeros.
pub open spec fn digits(n: nat) -> Seq<char>
    decreases n,
{
    if n < 10 {
        seq![hex_digit(n as int)]
    } else {
        digits(n / 10).push(hex_digit((n % 10) as int))
    }
}

/// The JSON text of the integer `n`.
pub open spec fn decimal(n: int) -> Seq<char> {
    if n < 0 {
        seq!['-'] + digits((-n) as nat)
    } else {
        digits(n as nat)
    }
}

/// The JSON text that `serde_json::to_string` writes for `value`.
pub uninterp spec fn json_value_text(value: serde_json::Value) -> Seq<char>;

/// Calls `serde_json::to_string` on a string. It succeeds, and the text is the string in quotes,
/// with the characters that JSON demands escaped. That is the text of one JSON value, which is no
/// integer and is read back as the string it was written for; where nothing had to be escaped, it
/// is also read back as a string without escapes.
#[verifier::external_body]
pub(crate) fn write_string(s: &str) -> (res: Result<String, JsonError>)
    ensures
        res is Ok,
        res matches Ok(text) ==> {
            &&& text@ == quoted(s@)
            &&& is_value_text(text@)
            &&& json_string(text@) == Some(s@)
            &&& json_i64(text@) is None
            &&& escaped(s@) == s@ ==> json_plain_string(text@) == Some(s@)
        },
{
    serde_json::to_string(s).map_err(|_| JsonError)
}

/// Calls `serde_json::to_string` on an integer. It succeeds, and the text is the integer in
/// decimal digits: the text of one JSON value, which is read back as the integer.
#[verifier::external_body]
pub(crate) fn write_i64(n: i64) -> (res: Result<String, JsonError>)
    ensures
        res is Ok,
        res matches Ok(text) ==> {
            &&& text@ == decimal(n as int)
            &&& is_value_text(text@)
            &&& json_i64(text@) == Some(n)
        },
{
    serde_json::to_string(&n).map_err(|_| JsonError)
}

/// Calls `serde_json::to_string` on the unit. It succeeds, and the text is that of the JSON value
/// null, which is no string and no integer.
#[verifier::external_body]
pub(crate) fn write_null() -> (res: Result<String, JsonError>)
    ensures
        res is Ok,
        res matches Ok(text) ==> {
            &&& text@ == "null"@
            &&& is_value_text(text@)
            &&& json_string(text@) is None
            &&& json_i64(text@) is None
        },
{
    serde_json::to_string(&()).map_err(|_| JsonError)
}

/// Calls `serde_json::to_string` on a JSON value in memory. It succeeds, and the text is
/// [`json_value_text`], the text of one JSON value.
#[verifier::external_body]
pub(crate) fn write_value(value: &serde_json::Value) -> (res: Result<String, JsonError>)
    ensures
        res is Ok,
        res matches Ok(text) ==> text@ == json_value_text(*value) && is_value_text(text@),
{
    serde_json::to_string(value).map_err(|_| JsonError)
}

} // verus!
