//! JSON as the fabric reads and writes it.
//!
//! The fabric never interprets the JSON that a configuration or a heartbeat
//! carries: it holds such a document as its compact text, frames it into an
//! envelope and takes it out again. Reading a document one level deep and
//! quoting a string are left to `serde_json`; everything else here is proved.
use crate::error::FabricError;
use crate::text::same_text;
use serde_json::Value;
use vstd::prelude::*;
use vstd::string::*;
use vstd::utf8::encode_utf8;

verus! {

/// The error `serde_json` reports.
#[verifier::external_type_specification]
#[verifier::external_body]
pub struct ExJsonError(serde_json::Error);

/// A JSON value read one level deep. Numbers, array elements and object
/// members are held as their compact JSON text.
#[derive(Debug, Clone, PartialEq, Eq)]
pub enum JsonValue {
    Null,
    Bool(bool),
    Number(String),
    Text(String),
    Array(Vec<String>),
    Object(Vec<(String, String)>),
}

/// What a [`JsonValue`] stands for in contracts.
pub enum JsonModel {
    Null,
    Bool(bool),
    Number(Seq<char>),
    Text(Seq<char>),
    Array(Seq<Seq<char>>),
    Object(Seq<(Seq<char>, Seq<char>)>),
}

/// The texts of a list of strings.
pub open spec fn texts_of(items: Seq<String>) -> Seq<Seq<char>> {
    items.map_values(|s: String| s@)
}

/// The names and texts of a list of object members.
pub open spec fn members_of(members: Seq<(String, String)>) -> Seq<(Seq<char>, Seq<char>)> {
    members.map_values(|m: (String, String)| (m.0@, m.1@))
}

impl View for JsonValue {
    type V = JsonModel;

    open spec fn view(&self) -> JsonModel {
        match self {
            JsonValue::Null => JsonModel::Null,
            JsonValue::Bool(b) => JsonModel::Bool(*b),
            JsonValue::Number(n) => JsonModel::Number(n@),
            JsonValue::Text(s) => JsonModel::Text(s@),
            JsonValue::Array(items) => JsonModel::Array(texts_of(items@)),
            JsonValue::Object(members) => JsonModel::Object(members_of(members@)),
        }
    }
}

/// The JSON value that `bytes` spell, read one level deep, or `None` where
/// `bytes` are not exactly one JSON text. Array elements and object members
/// appear in the order in which `serde_json` walks them.
pub uninterp spec fn json_parse(bytes: Seq<u8>) -> Option<JsonModel>;

/// The JSON string literal for `s`: `s` between double quotes with the
/// characters escaped that JSON asks to escape.
pub uninterp spec fn json_string_literal(s: Seq<char>) -> Seq<char>;

/// `serde_json::from_slice::<serde_json::Value>`: reads `bytes` as one JSON
/// text. The result is the parsed value one level deep, with each nested value
/// printed back compactly by `Value`'s `Display`; it is an error exactly where
/// `bytes` are not one JSON text.
#[verifier::external_body]
pub(crate) fn parse_value(bytes: &[u8]) -> (parsed: Result<JsonValue, serde_json::Error>)
    ensures
        match parsed {
            Ok(value) => json_parse(bytes@) == Some(value@),
            Err(_) => json_parse(bytes@) is None,
        },
{
    serde_json::from_slice::<Value>(bytes).map(|v| match v {
        Value::Null => JsonValue::Null,
        Value::Bool(b) => JsonValue::Bool(b),
        Value::Number(n) => JsonValue::Number(n.to_string()),
        Value::String(s) => JsonValue::Text(s),
        Value::Array(a) => JsonValue::Array(a.iter().map(|e| e.to_string()).collect()),
        Value::Object(m) => JsonValue::Object(
            m.iter().map(|(k, e)| (k.clone(), e.to_string())).collect(),
        ),
    })
}

/// `serde_json::to_string::<str>`: writes `s` as a JSON string literal. For a
/// string this cannot fail: `serde_json` documents failure only for a
/// `Serialize` impl that fails and for maps with keys that are not strings.
#[verifier::external_body]
pub(crate) fn quote(s: &str) -> (quoted: Result<String, serde_json::Error>)
    ensures
        quoted is Ok,
        quoted matches Ok(literal) ==> literal@ == json_string_literal(s@),
{
    serde_json::to_string(s)
}

/// `<serde_json::Error as ToString>::to_string`: the message of a JSON error.
#[verifier::external_body]
pub(crate) fn error_message(error: &serde_json::Error) -> String {
    error.to_string()
}

/// The JSON value that the text `s` spells, read one level deep.
pub open spec fn json_parse_text(s: Seq<char>) -> Option<JsonModel> {
    json_parse(encode_utf8(s))
}

/// The text of the first member of `members` that is named `key`.
pub open spec fn member(members: Seq<(Seq<char>, Seq<char>)>, key: Seq<char>) -> Option<
    Seq<char>,
>
    decreases members.len(),
{
    if members.len() == 0 {
        None
    } else if members[0].0 == key {
        Some(members[0].1)
    } else {
        member(members.drop_first(), key)
    }
}

/// The items of `items` written one after the other with a comma between
/// each two.
pub open spec fn comma_joined(items: Seq<Seq<char>>) -> Seq<char>
    decreases items.len(),
{
    if items.len() == 0 {
        Seq::empty()
    } else if items.len() == 1 {
        items[0]
    } else {
        comma_joined(items.drop_last()) + ","@ + items.last()
    }
}

/// Each member written as JSON writes it: the quoted name, a colon, the text.
pub open spec fn member_texts(members: Seq<(Seq<char>, Seq<char>)>) -> Seq<Seq<char>> {
    members.map_values(|m: (Seq<char>, Seq<char>)| json_string_literal(m.0) + ":"@ + m.1)
}

/// The compact JSON text of a value: no space anywhere outside strings.
pub open spec fn compact(value: JsonModel) -> Seq<char> {
    match value {
        JsonModel::Null => "null"@,
        JsonModel::Bool(b) => if b {
            "true"@
        } else {
            "false"@
        },
        JsonModel::Number(digits) => digits,
        JsonModel::Text(s) => json_string_literal(s),
        JsonModel::Array(items) => "["@ + comma_joined(items) + "]"@,
        JsonModel::Object(members) => "{"@ + comma_joined(member_texts(members)) + "}"@,
    }
}

/// The fabric's error for JSON that could not be read or written, with
/// `message` as its detail.
pub fn codec_failure(message: String) -> (e: FabricError)
    ensures
        e == FabricError::SerdeJsonError(message),
{
    FabricError::SerdeJsonError(message)
}

/// Turns what `serde_json` reported into the fabric's own error. The detail
/// is the message that `serde_json` gives; what becomes of it is
/// `codec_failure`.
pub fn codec_error(error: &serde_json::Error) -> (e: FabricError)
    ensures
        e is SerdeJsonError,
{
    codec_failure(error_message(error))
}

/// Reads `bytes` as one JSON text, one level deep.
pub fn parse_bytes(bytes: &[u8]) -> (parsed: Result<JsonValue, FabricError>)
    ensures
        match parsed {
            Ok(value) => json_parse(bytes@) == Some(value@),
            Err(e) => json_parse(bytes@) is None && e is SerdeJsonError,
        },
{
    match parse_value(bytes) {
        Ok(value) => Ok(value),
        Err(error) => Err(codec_error(&error)),
    }
}

/// Reads `text` as one JSON text, one level deep.
pub fn parse_text(text: &str) -> (parsed: Result<JsonValue, FabricError>)
    ensures
        match parsed {
            Ok(value) => json_parse_text(text@) == Some(value@),
            Err(e) => json_parse_text(text@) is None && e is SerdeJsonError,
        },
{
    parse_bytes(text.as_bytes())
}

/// Writes `s` as a JSON string literal.
pub fn string_literal(s: &str) -> (literal: String)
    ensures
        literal@ == json_string_literal(s@),
{
    match quote(s) {
        Ok(literal) => literal,
        Err(_) => String::new(),
    }
}

/// Looks a member up by name.
pub fn find_member(members: &Vec<(String, String)>, key: &str) -> (found: Option<String>)
    ensures
        match found {
            Some(text) => member(members_of(members@), key@) == Some(text@),
            None => member(members_of(members@), key@) is None,
        },
{
    let ghost all = members_of(members@);
    let mut at: usize = 0;
    proof {
        assert(all.skip(0) =~= all);
    }
    while at < members.len()
        invariant
            0 <= at <= members.len(),
            all == members_of(members@),
            member(all, key@) == member(all.skip(at as int), key@),
        decreases members.len() - at,
    {
        let ghost rest = all.skip(at as int);
        proof {
            assert(rest[0] == all[at as int]);
            assert(all[at as int] == (members@[at as int].0@, members@[at as int].1@));
            assert(rest.drop_first() =~= all.skip(at + 1));
        }
        if same_text(members[at].0.as_str(), key) {
            return Some(members[at].1.clone());
        }
        at = at + 1;
    }
    None
}

/// Writes the items one after the other with a comma between each two.
pub fn join_with_commas(items: &Vec<String>) -> (joined: String)
    ensures
        joined@ == comma_joined(texts_of(items@)),
{
    let ghost all = texts_of(items@);
    let mut joined = String::new();
    let mut at: usize = 0;
    proof {
        assert(all.take(0) =~= Seq::<Seq<char>>::empty());
    }
    while at < items.len()
        invariant
            0 <= at <= items.len(),
            all == texts_of(items@),
            joined@ == comma_joined(all.take(at as int)),
        decreases items.len() - at,
    {
        let ghost before = all.take(at as int);
        let ghost now = all.take(at + 1);
        proof {
            assert(now.drop_last() =~= before);
            assert(now.last() == items@[at as int]@);
            reveal_strlit(",");
        }
        if at > 0 {
            joined.append(",");
        }
        joined.append(items[at].as_str());
        proof {
            if at == 0 {
                assert(now.len() == 1);
                assert(now[0] == items@[0]@);
                assert(before.len() == 0);
                assert(Seq::<char>::empty() + items@[0]@ =~= items@[0]@);
            }
        }
        at = at + 1;
    }
    proof {
        assert(all.take(items.len() as int) =~= all);
    }
    joined
}

/// Writes a value read one level deep back as compact JSON text.
pub fn compact_text(value: &JsonValue) -> (text: String)
    ensures
        text@ == compact(value@),
{
    match value {
        JsonValue::Null => String::from_str("null"),
        JsonValue::Bool(b) => if *b {
            String::from_str("true")
        } else {
            String::from_str("false")
        },
        JsonValue::Number(digits) => digits.clone(),
        JsonValue::Text(s) => string_literal(s.as_str()),
        JsonValue::Array(items) => {
            let mut text = String::from_str("[");
            text.append(join_with_commas(items).as_str());
            text.append("]");
            text
        },
        JsonValue::Object(members) => {
            let mut written: Vec<String> = Vec::new();
            let mut at: usize = 0;
            while at < members.len()
                invariant
                    0 <= at <= members.len(),
                    written.len() == at,
                    forall|i: int|
                        0 <= i < at ==> written@[i]@ == json_string_literal(members@[i].0@) + ":"@
                            + members@[i].1@,
                decreases members.len() - at,
            {
                let mut one = string_literal(members[at].0.as_str());
                one.append(":");
                one.append(members[at].1.as_str());
                written.push(one);
                at = at + 1;
            }
            assert(texts_of(written@) =~= member_texts(members_of(members@)));
            let mut text = String::from_str("{");
            text.append(join_with_commas(&written).as_str());
            text.append("}");
            text
        },
    }
}

} // verus!
