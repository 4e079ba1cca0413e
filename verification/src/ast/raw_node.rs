//! Subtrees that the syntax tree keeps as JSON text.

use serde_json::de::{Deserializer, StrRead};
use serde_json::value::RawValue;
use vstd::prelude::*;

verus! {

/// JSON text that has been checked, whole and without surrounding whitespace.
#[verifier::external_type_specification]
#[verifier::external_body]
pub struct ExRawValue(serde_json::value::RawValue);

/// A parsed JSON value.
#[verifier::external_type_specification]
#[verifier::external_body]
pub struct ExValue(serde_json::Value);

/// Why JSON text was not accepted.
#[verifier::external_type_specification]
#[verifier::external_body]
pub struct ExError(serde_json::Error);

/// Why bytes are not UTF-8.
#[verifier::external_type_specification]
#[verifier::external_body]
pub struct ExFromUtf8Error(std::string::FromUtf8Error);

/// A source of JSON text that is a string.
#[verifier::external_type_specification]
#[verifier::external_body]
pub struct ExStrRead<'a>(serde_json::de::StrRead<'a>);

/// A reader of JSON.
#[verifier::external_type_specification]
#[verifier::external_body]
#[verifier::reject_recursive_types(R)]
pub struct ExDeserializer<R>(serde_json::Deserializer<R>);

/// The JSON text of a raw value: what `RawValue::get` returns.
pub uninterp spec fn raw_text(raw: &RawValue) -> Seq<char>;

/// The JSON text that `RawValue::from_string` keeps of a text: the text without
/// surrounding whitespace if it is one JSON value, and nothing otherwise.
pub uninterp spec fn raw_json(text: Seq<char>) -> Option<Seq<char>>;

/// The compact JSON text of a value: what `Value::to_string` returns.
pub uninterp spec fn value_text(value: &serde_json::Value) -> Seq<char>;

/// The text that a reader has yet to read.
pub uninterp spec fn pending_text(reader: Deserializer<StrRead<'_>>) -> Seq<char>;

/// The depth at which a reader gives up, counted from where it stands; none
/// where the limit is off.
pub uninterp spec fn depth_limit(reader: Deserializer<StrRead<'_>>) -> Option<u8>;

/// The value at the start of a text, if one can be read under the given depth
/// limit: what `Value::deserialize` returns on a reader of that text with that
/// limit.
pub uninterp spec fn parsed_value(text: Seq<char>, limit: Option<u8>) -> Option<serde_json::Value>;

/// The text parses, without a depth limit, into the value that is written
/// `null`.
pub open spec fn reads_back_as_null(text: Seq<char>) -> bool {
    parsed_value(text, None) matches Some(value) && value_text(&value) == "null"@
}

/// `RawValue::get` returns the text of the raw value.
pub assume_specification[ serde_json::value::RawValue::get ](raw: &RawValue) -> (res: &str)
    ensures
        res@ == raw_text(raw),
;

/// `Box<RawValue>::clone` copies the text.
pub assume_specification[ <Box<RawValue> as Clone>::clone ](raw: &Box<RawValue>) -> (res: Box<
    RawValue,
>)
    ensures
        raw_text(&*res) == raw_text(&**raw),
;

/// `RawValue::from_string` keeps the JSON text of its argument or fails. What it
/// keeps is JSON text that it would keep unchanged. `null` is JSON text, and
/// what is kept of it can be read back: into the value that is written `null`.
pub assume_specification[ serde_json::value::RawValue::from_string ](json: String) -> (res: Result<
    Box<RawValue>,
    serde_json::Error,
>)
    ensures
        match res {
            Ok(raw) => {
                &&& raw_json(json@) == Some(raw_text(&*raw))
                &&& raw_json(raw_text(&*raw)) == Some(raw_text(&*raw))
                &&& json@ == "null"@ ==> raw_text(&*raw) == json@ && reads_back_as_null(
                    raw_text(&*raw),
                )
            },
            Err(_) => raw_json(json@) is None && json@ != "null"@,
        },
;

/// `String::from_utf8` decodes UTF-8 and fails on anything else.
pub assume_specification[ String::from_utf8 ](bytes: Vec<u8>) -> (res: Result<
    String,
    std::string::FromUtf8Error,
>)
    ensures
        match res {
            Ok(text) => vstd::utf8::valid_utf8(bytes@) && text@ == vstd::utf8::decode_utf8(bytes@),
            Err(_) => !vstd::utf8::valid_utf8(bytes@),
        },
;

/// `Value::to_string` writes the value as compact JSON: text that
/// `RawValue::from_string` keeps unchanged. How much stack a deep value takes is
/// left unsaid.
#[verifier::external_body]
fn value_to_string(value: &serde_json::Value) -> (res: String)
    ensures
        res@ == value_text(value),
        raw_json(res@) == Some(res@),
{
    value.to_string()
}

/// `Deserializer::from_str` makes a reader of the text, with serde_json's usual
/// depth limit.
#[verifier::external_body]
fn open_reader<'a>(text: &'a str) -> (res: Deserializer<StrRead<'a>>)
    ensures
        pending_text(res) == text@,
        depth_limit(res) == Some(128u8),
{
    Deserializer::from_str(text)
}

/// `Deserializer::disable_recursion_limit` takes the depth limit off a reader
/// and leaves the text that it reads.
#[verifier::external_body]
fn lift_depth_limit(reader: &mut Deserializer<StrRead<'_>>)
    ensures
        pending_text(*final(reader)) == pending_text(*old(reader)),
        depth_limit(*final(reader)) == None::<u8>,
{
    reader.disable_recursion_limit()
}

/// `Value::deserialize` on a reader reads the value at the start of its text, or
/// fails. Whether it does, and which value it reads, depends on the text and on
/// the depth limit alone; `null` is always read. A reader whose depth is used up is left out: counting
/// down once more overflows. What the failure says, and how much stack a deep
/// text takes, is left unsaid.
#[verifier::external_body]
fn read_value(reader: Deserializer<StrRead<'_>>) -> (res: Result<
    serde_json::Value,
    serde_json::Error,
>)
    requires
        depth_limit(reader) != Some(0u8),
    ensures
        match res {
            Ok(value) => parsed_value(pending_text(reader), depth_limit(reader)) == Some(value),
            Err(_) => {
                &&& parsed_value(pending_text(reader), depth_limit(reader)) is None
                &&& pending_text(reader) != "null"@
            },
        },
{
    let mut reader = reader;
    serde::Deserialize::deserialize(&mut reader)
}

/// Parses JSON text without a depth limit. Every reparse of a subtree goes
/// through this: a syntax tree of any depth may come in, and looking inside one
/// of its subtrees must not bring the usual limit back.
pub fn from_json_str_unbounded(text: &str) -> (res: Result<serde_json::Value, serde_json::Error>)
    ensures
        match res {
            Ok(value) => parsed_value(text@, None) == Some(value),
            Err(_) => parsed_value(text@, None) is None && text@ != "null"@,
        },
{
    let mut reader = open_reader(text);
    lift_depth_limit(&mut reader);
    read_value(reader)
}

/// A subtree of the syntax tree that is not modelled with typed nodes: type
/// annotations, class bodies, parser extras. It is kept as JSON text, and
/// parsed where someone looks inside.
#[derive(Debug)]
pub struct RawNode(pub Box<RawValue>);

/// Why a subtree could not be taken over.
#[derive(Debug)]
pub enum RawNodeError {
    /// The bytes are not UTF-8.
    Utf8(std::string::FromUtf8Error),
    /// The text is not one JSON value.
    Json(serde_json::Error),
}

/// What looking for the `"type"` field of a node finds.
#[derive(Debug)]
pub struct TypeProbe {
    pub node_type: Option<String>,
}

impl View for RawNode {
    type V = Seq<char>;

    /// The JSON text.
    open spec fn view(&self) -> Seq<char> {
        raw_text(&*self.0)
    }
}

impl Clone for RawNode {
    fn clone(&self) -> (res: Self)
        ensures
            res@ == self@,
    {
        RawNode(self.0.clone())
    }
}

/// The bytes are the UTF-8 form of the text `null`.
pub open spec fn is_null_json(json: Seq<u8>) -> bool {
    vstd::utf8::valid_utf8(json) && vstd::utf8::decode_utf8(json) == "null"@
}

/// The JSON text of which the bytes are the UTF-8 form, if there is one.
pub open spec fn json_of_bytes(json: Seq<u8>) -> Option<Seq<char>> {
    if vstd::utf8::valid_utf8(json) {
        raw_json(vstd::utf8::decode_utf8(json))
    } else {
        None
    }
}

impl RawNode {
    /// The text is one JSON value without surrounding whitespace.
    pub open spec fn is_json(&self) -> bool {
        raw_json(self@) == Some(self@)
    }

    /// The subtree of a JSON value.
    pub fn from_value(value: &serde_json::Value) -> (res: Self)
        ensures
            res@ == value_text(value),
            res.is_json(),
    {
        RawNode(
            RawValue::from_string(value_to_string(value)).expect(
                "serde_json::Value always serializes to valid JSON",
            ),
        )
    }

    /// The subtree `null`, whose value can be looked at.
    pub fn null() -> (res: Self)
        ensures
            res@ == "null"@,
            res.is_json(),
            reads_back_as_null(res@),
    {
        RawNode(RawValue::from_string("null".to_string()).expect("null is valid JSON"))
    }

    /// The subtree of a JSON value in UTF-8. Bytes that are not UTF-8 are
    /// refused, and so is text that is not one JSON value.
    pub fn from_json(json: Vec<u8>) -> (res: Result<Self, RawNodeError>)
        ensures
            match res {
                Ok(node) => json_of_bytes(json@) == Some(node@) && node.is_json(),
                Err(RawNodeError::Utf8(_)) => !vstd::utf8::valid_utf8(json@),
                Err(RawNodeError::Json(_)) => vstd::utf8::valid_utf8(json@) && json_of_bytes(
                    json@,
                ) is None,
            },
            is_null_json(json@) ==> (res matches Ok(node) && node@ == "null"@
                && reads_back_as_null(node@)),
    {
        match String::from_utf8(json) {
            Ok(text) => match RawValue::from_string(text) {
                Ok(raw) => Ok(RawNode(raw)),
                Err(err) => Err(RawNodeError::Json(err)),
            },
            Err(err) => Err(RawNodeError::Utf8(err)),
        }
    }

    /// The JSON text of this subtree.
    pub fn get(&self) -> (res: &str)
        ensures
            res@ == self@,
    {
        self.0.get()
    }

    /// The value of this subtree, for looking inside. The text has to parse.
    pub fn parse_value(&self) -> (res: serde_json::Value)
        requires
            parsed_value(self@, None) is Some,
        ensures
            parsed_value(self@, None) == Some(res),
    {
        from_json_str_unbounded(self.0.get()).expect("RawNode holds valid JSON by construction")
    }

    /// The value of this subtree, or nothing where the text does not parse.
    pub fn try_parse_value(&self) -> (res: Option<serde_json::Value>)
        ensures
            res == parsed_value(self@, None),
    {
        if from_json_str_unbounded(self.get()).is_ok() {
            Some(self.parse_value())
        } else {
            None
        }
    }

    /// The `"type"` field of a node, from what looking for it found: nothing
    /// where the text could not be read that way.
    pub fn node_type_name(probe: Result<TypeProbe, serde_json::Error>) -> (res: Option<String>)
        ensures
            res == (match probe {
                Ok(found) => found.node_type,
                Err(_) => None,
            }),
    {
        match probe {
            Ok(found) => found.node_type,
            Err(_) => None,
        }
    }
}

/// The value of a field that is present, which tells `null` from an absent
/// field: `null` gives the subtree `null`, and an absent field stays `None`
/// because nobody calls this for it.
pub fn nullable_value(json: Vec<u8>) -> (res: Result<Option<RawNode>, RawNodeError>)
    ensures
        match res {
            Ok(node) => node matches Some(node) && json_of_bytes(json@) == Some(node@)
                && node.is_json(),
            Err(RawNodeError::Utf8(_)) => !vstd::utf8::valid_utf8(json@),
            Err(RawNodeError::Json(_)) => vstd::utf8::valid_utf8(json@) && json_of_bytes(
                json@,
            ) is None,
        },
        is_null_json(json@) ==> (res matches Ok(Some(node)) && node@ == "null"@
            && reads_back_as_null(node@)),
{
    match RawNode::from_json(json) {
        Ok(node) => Ok(Some(node)),
        Err(err) => Err(err),
    }
}

/// The text of a subtree reads back as it was written: taken as UTF-8, it is
/// the JSON text of the same subtree.
pub proof fn lemma_json_text_reads_back(node: RawNode)
    requires
        node.is_json(),
    ensures
        json_of_bytes(vstd::utf8::encode_utf8(node@)) == Some(node@),
{
    broadcast use vstd::utf8::encode_utf8_valid_utf8, vstd::utf8::encode_utf8_decode_utf8;

}

} // verus!
