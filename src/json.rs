//! A JSON tree as plain values, read from text by serde_json, and the typed
//! field accessors that the message decoders are built from.

use vstd::prelude::*;
use crate::text::same_text;

verus! {

#[verifier::external_type_specification]
#[verifier::external_body]
pub struct ExJsonValue(serde_json::Value);

/// One JSON value. Numbers are kept as serde_json classifies them: a
/// non-negative integer, a negative integer, or any other number by its text.
/// An object keeps its members in the order the reader gave them.
#[derive(Debug)]
pub enum Json {
    Null,
    Bool(bool),
    UInt(u64),
    Int(i64),
    Real(String),
    Str(String),
    Array(Vec<Json>),
    Object(Vec<(String, Json)>),
}

/// The tree that serde_json reads from `text`, if `text` is JSON.
pub uninterp spec fn json_of_text(text: Seq<char>) -> Option<Json>;

/// The tree that serde_json reads from `bytes`, if they are JSON.
pub uninterp spec fn json_of_bytes(bytes: Seq<u8>) -> Option<Json>;

/// Converts a serde_json tree into a `Json`, node for node.
#[verifier::external_body]
fn json_from_value(v: serde_json::Value) -> Json {
    match v {
        serde_json::Value::Null => Json::Null,
        serde_json::Value::Bool(b) => Json::Bool(b),
        serde_json::Value::Number(n) => match (n.as_u64(), n.as_i64()) {
            (Some(u), _) => Json::UInt(u),
            (None, Some(i)) => Json::Int(i),
            _ => Json::Real(n.to_string()),
        },
        serde_json::Value::String(s) => Json::Str(s),
        serde_json::Value::Array(a) => Json::Array(a.into_iter().map(json_from_value).collect()),
        serde_json::Value::Object(m) => Json::Object(m.into_iter().map(|(k, x)| (k, json_from_value(x))).collect()),
    }
}

/// Relies on `serde_json::from_str::<serde_json::Value>`: whether `text` is
/// JSON, and the tree it holds, depend on the text alone.
#[verifier::external_body]
pub(crate) fn parse_json(text: &str) -> (r: Option<Json>)
    ensures
        r == json_of_text(text@),
{
    serde_json::from_str::<serde_json::Value>(text).ok().map(json_from_value)
}

/// Relies on `serde_json::from_slice::<serde_json::Value>`: whether `bytes`
/// are JSON, and the tree they hold, depend on the bytes alone.
#[verifier::external_body]
pub(crate) fn parse_json_bytes(bytes: &[u8]) -> (r: Option<Json>)
    ensures
        r == json_of_bytes(bytes@),
{
    serde_json::from_slice::<serde_json::Value>(bytes).ok().map(json_from_value)
}

/// The members of an object; any other value has none.
pub open spec fn members(j: Json) -> Seq<(String, Json)> {
    match j {
        Json::Object(f) => f@,
        _ => Seq::empty(),
    }
}

/// The value of the first member named `key`.
pub open spec fn lookup(fields: Seq<(String, Json)>, key: Seq<char>) -> Option<Json>
    decreases fields.len(),
{
    if fields.len() == 0 {
        None
    } else if fields[0].0@ == key {
        Some(fields[0].1)
    } else {
        lookup(fields.drop_first(), key)
    }
}

pub open spec fn member(j: Json, key: Seq<char>) -> Option<Json> {
    lookup(members(j), key)
}

pub open spec fn str_member(j: Json, key: Seq<char>) -> Option<Seq<char>> {
    match member(j, key) {
        Some(Json::Str(s)) => Some(s@),
        _ => None,
    }
}

pub open spec fn u64_member(j: Json, key: Seq<char>) -> Option<u64> {
    match member(j, key) {
        Some(Json::UInt(n)) => Some(n),
        _ => None,
    }
}

pub open spec fn u32_member(j: Json, key: Seq<char>) -> Option<u32> {
    match member(j, key) {
        Some(Json::UInt(n)) => if n <= u32::MAX { Some(n as u32) } else { None },
        _ => None,
    }
}

pub open spec fn i64_member(j: Json, key: Seq<char>) -> Option<i64> {
    match member(j, key) {
        Some(Json::Int(n)) => Some(n),
        Some(Json::UInt(n)) => if n <= i64::MAX { Some(n as i64) } else { None },
        _ => None,
    }
}

pub open spec fn bool_member(j: Json, key: Seq<char>) -> Option<bool> {
    match member(j, key) {
        Some(Json::Bool(b)) => Some(b),
        _ => None,
    }
}

/// An optional text member: absent or null gives `Some(None)`, text gives
/// `Some(Some(..))`, anything else does not decode.
pub open spec fn opt_str_member(j: Json, key: Seq<char>) -> Option<Option<Seq<char>>> {
    match member(j, key) {
        None => Some(None),
        Some(Json::Null) => Some(None),
        Some(Json::Str(s)) => Some(Some(s@)),
        _ => None,
    }
}

/// An optional integer member, read as `opt_str_member` reads text.
pub open spec fn opt_u32_member(j: Json, key: Seq<char>) -> Option<Option<u32>> {
    match member(j, key) {
        None => Some(None),
        Some(Json::Null) => Some(None),
        Some(Json::UInt(n)) => if n <= u32::MAX { Some(Some(n as u32)) } else { None },
        _ => None,
    }
}

pub open spec fn array_member(j: Json, key: Seq<char>) -> Option<Seq<Json>> {
    match member(j, key) {
        Some(Json::Array(a)) => Some(a@),
        _ => None,
    }
}

pub open spec fn text_view(o: Option<String>) -> Option<Seq<char>> {
    match o {
        Some(s) => Some(s@),
        None => None,
    }
}

pub open spec fn opt_text_view(o: Option<Option<String>>) -> Option<Option<Seq<char>>> {
    match o {
        Some(Some(s)) => Some(Some(s@)),
        Some(None) => Some(None),
        None => None,
    }
}

/// The position of the first member of `fields` named `key`.
fn find_member(fields: &Vec<(String, Json)>, key: &str) -> (r: Option<usize>)
    ensures
        match r {
            Some(i) => i < fields@.len() && lookup(fields@, key@) == Some(fields@[i as int].1),
            None => lookup(fields@, key@) is None,
        },
{
    let mut i: usize = 0;
    assert(fields@.subrange(0, fields@.len() as int) =~= fields@);
    while i < fields.len()
        invariant
            i <= fields@.len(),
            lookup(fields@, key@) == lookup(fields@.subrange(i as int, fields@.len() as int), key@),
        decreases fields@.len() - i,
    {
        let rest = Ghost(fields@.subrange(i as int, fields@.len() as int));
        assert(rest@[0] == fields@[i as int]);
        assert(rest@.drop_first() =~= fields@.subrange(i + 1, fields@.len() as int));
        if same_text(fields[i].0.as_str(), key) {
            return Some(i);
        }
        i = i + 1;
    }
    None
}

/// The value of the member named `key` of `j`.
pub fn get_member<'a>(j: &'a Json, key: &str) -> (r: Option<&'a Json>)
    ensures
        match r {
            Some(x) => member(*j, key@) == Some(*x),
            None => member(*j, key@) is None,
        },
{
    match j {
        Json::Object(fields) => match find_member(fields, key) {
            Some(i) => Some(&fields[i].1),
            None => None,
        },
        _ => None,
    }
}

pub fn get_str(j: &Json, key: &str) -> (r: Option<String>)
    ensures
        text_view(r) == str_member(*j, key@),
{
    match get_member(j, key) {
        Some(Json::Str(s)) => Some(s.clone()),
        _ => None,
    }
}

pub fn get_u64(j: &Json, key: &str) -> (r: Option<u64>)
    ensures
        r == u64_member(*j, key@),
{
    match get_member(j, key) {
        Some(Json::UInt(n)) => Some(*n),
        _ => None,
    }
}

pub fn get_u32(j: &Json, key: &str) -> (r: Option<u32>)
    ensures
        r == u32_member(*j, key@),
{
    match get_member(j, key) {
        Some(Json::UInt(n)) => if *n <= 0xffff_ffffu64 { Some(*n as u32) } else { None },
        _ => None,
    }
}

pub fn get_i64(j: &Json, key: &str) -> (r: Option<i64>)
    ensures
        r == i64_member(*j, key@),
{
    match get_member(j, key) {
        Some(Json::Int(n)) => Some(*n),
        Some(Json::UInt(n)) => if *n <= 0x7fff_ffff_ffff_ffffu64 { Some(*n as i64) } else { None },
        _ => None,
    }
}

pub fn get_bool(j: &Json, key: &str) -> (r: Option<bool>)
    ensures
        r == bool_member(*j, key@),
{
    match get_member(j, key) {
        Some(Json::Bool(b)) => Some(*b),
        _ => None,
    }
}

pub fn get_opt_str(j: &Json, key: &str) -> (r: Option<Option<String>>)
    ensures
        opt_text_view(r) == opt_str_member(*j, key@),
{
    match get_member(j, key) {
        None => Some(None),
        Some(Json::Null) => Some(None),
        Some(Json::Str(s)) => Some(Some(s.clone())),
        _ => None,
    }
}

pub fn get_opt_u32(j: &Json, key: &str) -> (r: Option<Option<u32>>)
    ensures
        r == opt_u32_member(*j, key@),
{
    match get_member(j, key) {
        None => Some(None),
        Some(Json::Null) => Some(None),
        Some(Json::UInt(n)) => if *n <= 0xffff_ffffu64 { Some(Some(*n as u32)) } else { None },
        _ => None,
    }
}

pub fn get_array<'a>(j: &'a Json, key: &str) -> (r: Option<&'a Vec<Json>>)
    ensures
        match r {
            Some(a) => array_member(*j, key@) == Some(a@),
            None => array_member(*j, key@) is None,
        },
{
    match get_member(j, key) {
        Some(Json::Array(a)) => Some(a),
        _ => None,
    }
}

/// The text of a JSON string value.
pub open spec fn str_item(j: Json) -> Option<Seq<char>> {
    match j {
        Json::Str(s) => Some(s@),
        _ => None,
    }
}

/// Is `js` a list of JSON strings that hold the texts `vs`?
pub open spec fn decodes_str_list(js: Seq<Json>, vs: Seq<String>) -> bool {
    &&& js.len() == vs.len()
    &&& forall|i: int| 0 <= i < js.len() ==> #[trigger] str_item(js[i]) == Some(vs[i]@)
}

/// Reads a list of texts.
pub fn decode_str_list(js: &Vec<Json>) -> (r: Option<Vec<String>>)
    ensures
        match r {
            Some(v) => decodes_str_list(js@, v@),
            None => forall|vs: Seq<String>| !#[trigger] decodes_str_list(js@, vs),
        },
{
    let mut out: Vec<String> = Vec::new();
    let mut i: usize = 0;
    while i < js.len()
        invariant
            i <= js@.len(),
            out@.len() == i,
            forall|k: int| 0 <= k < i ==> #[trigger] str_item(js@[k]) == Some(out@[k]@),
        decreases js@.len() - i,
    {
        match &js[i] {
            Json::Str(s) => {
                out.push(s.clone());
            },
            _ => {
                proof {
                    assert forall|vs: Seq<String>| !#[trigger] decodes_str_list(js@, vs) by {
                        if vs.len() == js@.len() {
                            assert(str_item(js@[i as int]) != Some(vs[i as int]@));
                        }
                    }
                }
                return None;
            },
        }
        i = i + 1;
    }
    Some(out)
}

} // verus!
