//! JSON documents as plain values: what the automod and AI logic reads of them.
use vstd::prelude::*;

verus! {

/// A JSON value. Numbers keep what the logic reads of them: their value as an
/// unsigned 64-bit integer, where they have one.
#[derive(Debug)]
pub enum JsonValue {
    Null,
    Bool(bool),
    Number(Option<u64>),
    String(String),
    Array(Vec<JsonValue>),
    /// Members in the order serde_json hands them over (sorted by key); keys are
    /// distinct.
    Object(Vec<(String, JsonValue)>),
}

/// The index of the first member named `key` among `members`.
pub open spec fn member_index(members: Seq<(String, JsonValue)>, key: Seq<char>) -> Option<int>
    decreases members.len(),
{
    if members.len() == 0 {
        None
    } else if members[0].0@ == key {
        Some(0)
    } else {
        match member_index(members.drop_first(), key) {
            Some(i) => Some(i + 1),
            None => None,
        }
    }
}

/// The member `key` of an object (`Value::get` with a string key); `None` for
/// other values and missing members.
pub open spec fn json_get(v: JsonValue, key: Seq<char>) -> Option<JsonValue> {
    match v {
        JsonValue::Object(members) => match member_index(members@, key) {
            Some(i) => Some(members@[i].1),
            None => None,
        },
        _ => None,
    }
}

/// The text of a JSON string (`Value::as_str`).
pub open spec fn json_str(v: Option<JsonValue>) -> Option<Seq<char>> {
    match v {
        Some(JsonValue::String(s)) => Some(s@),
        _ => None,
    }
}

/// A number's value as `u64` (`Value::as_u64`).
pub open spec fn json_u64(v: Option<JsonValue>) -> Option<u64> {
    match v {
        Some(JsonValue::Number(n)) => n,
        _ => None,
    }
}

/// The texts of the string items of an array, in order; other items are skipped
/// and a missing member or a non-array gives none.
pub open spec fn string_items(v: Option<JsonValue>) -> Seq<Seq<char>> {
    match v {
        Some(JsonValue::Array(items)) => strings_among(items@),
        _ => Seq::empty(),
    }
}

/// The texts of the string values among `items`, in order.
pub open spec fn strings_among(items: Seq<JsonValue>) -> Seq<Seq<char>>
    decreases items.len(),
{
    if items.len() == 0 {
        Seq::empty()
    } else {
        let prev = strings_among(items.drop_last());
        match items.last() {
            JsonValue::String(s) => prev.push(s@),
            _ => prev,
        }
    }
}

pub proof fn lemma_member_index(members: Seq<(String, JsonValue)>, key: Seq<char>)
    ensures
        match member_index(members, key) {
            Some(i) => 0 <= i < members.len() && members[i].0@ == key && forall|k: int|
                0 <= k < i ==> members[k].0@ != key,
            None => forall|k: int| 0 <= k < members.len() ==> members[k].0@ != key,
        },
    decreases members.len(),
{
    if members.len() > 0 && members[0].0@ != key {
        lemma_member_index(members.drop_first(), key);
        assert forall|k: int| 1 <= k < members.len() implies members[k].0@ == members.drop_first()[k
            - 1].0@ by {}
    }
}

/// The member `key` of an object, if present (`Value::get`).
pub fn get<'a>(v: &'a JsonValue, key: &str) -> (r: Option<&'a JsonValue>)
    ensures
        match r {
            Some(x) => json_get(*v, key@) == Some(*x),
            None => json_get(*v, key@) is None,
        },
{
    match v {
        JsonValue::Object(members) => {
            proof {
                lemma_member_index(members@, key@);
            }
            let mut i: usize = 0;
            while i < members.len()
                invariant
                    i <= members.len(),
                    *v == JsonValue::Object(*members),
                    forall|k: int| 0 <= k < i ==> members@[k].0@ != key@,
                    match member_index(members@, key@) {
                        Some(j) => 0 <= j < members@.len() && members@[j].0@ == key@ && forall|
                            k: int,
                        | 0 <= k < j ==> members@[k].0@ != key@,
                        None => forall|k: int|
                            0 <= k < members@.len() ==> members@[k].0@ != key@,
                    },
                decreases members.len() - i,
            {
                if crate::text::str_eq(members[i].0.as_str(), key) {
                    proof {
                        match member_index(members@, key@) {
                            Some(j) => {
                                assert(j == i);
                            },
                            None => {},
                        }
                    }
                    return Some(&members[i].1);
                }
                i = i + 1;
            }
            None
        },
        _ => None,
    }
}

/// The text of a JSON string value (`Value::as_str`).
pub fn as_str(v: Option<&JsonValue>) -> (r: Option<&String>)
    ensures
        match r {
            Some(s) => json_str(match v {
                Some(x) => Some(*x),
                None => None,
            }) == Some(s@),
            None => json_str(match v {
                Some(x) => Some(*x),
                None => None,
            }) is None,
        },
{
    match v {
        Some(JsonValue::String(s)) => Some(s),
        _ => None,
    }
}

/// The texts of the string items of an array member, in order.
pub fn string_items_of(v: Option<&JsonValue>) -> (r: Vec<String>)
    ensures
        r@.map_values(|s: String| s@) == string_items(match v {
            Some(x) => Some(*x),
            None => None,
        }),
{
    let mut r: Vec<String> = Vec::new();
    match v {
        Some(JsonValue::Array(items)) => {
            let mut i: usize = 0;
            while i < items.len()
                invariant
                    i <= items.len(),
                    r@.map_values(|s: String| s@) == strings_among(items@.take(i as int)),
                decreases items.len() - i,
            {
                assert(items@.take(i + 1).drop_last() =~= items@.take(i as int));
                let ghost r0 = r@.map_values(|s: String| s@);
                match &items[i] {
                    JsonValue::String(s) => {
                        r.push(s.clone());
                        assert(r@.map_values(|s: String| s@) =~= r0.push(s@));
                    },
                    _ => {},
                }
                i = i + 1;
            }
            assert(items@.take(items.len() as int) =~= items@);
        },
        _ => {
            assert(r@.map_values(|s: String| s@) =~= Seq::<Seq<char>>::empty());
        },
    }
    r
}

// ---------------------------------------------------------------------------
// Parsing with serde_json
// ---------------------------------------------------------------------------

#[verifier::external_type_specification]
#[verifier::external_body]
pub struct ExSerdeValue(serde_json::Value);

/// What `serde_json::from_str::<Value>` gives for a text, as a `JsonValue`:
/// the document, or serde's error message.
pub uninterp spec fn json_document(text: Seq<char>) -> Result<JsonValue, String>;

/// What `serde_json::from_str::<Vec<Value>>` gives for a text: the items of the
/// array document, or serde's error message.
pub uninterp spec fn json_array_document(text: Seq<char>) -> Result<Vec<JsonValue>, String>;

/// A `serde_json::Value` as a `JsonValue`, variant for variant; a number keeps
/// its `as_u64`. Used by the two parses below to hand their result over.
#[verifier::external_body]
fn json_of(v: serde_json::Value) -> JsonValue {
    match v {
        serde_json::Value::Null => JsonValue::Null,
        serde_json::Value::Bool(b) => JsonValue::Bool(b),
        serde_json::Value::Number(n) => JsonValue::Number(n.as_u64()),
        serde_json::Value::String(s) => JsonValue::String(s),
        serde_json::Value::Array(a) => JsonValue::Array(a.into_iter().map(json_of).collect()),
        serde_json::Value::Object(m) => JsonValue::Object(m.into_iter().map(|(k, x)| (k, json_of(x))).collect()),
    }
}

/// Parses a JSON document with `serde_json::from_str::<Value>`, keeping the
/// error's text. The result is named by `json_document` of the text; the JSON
/// grammar is not stated.
#[verifier::external_body]
pub(crate) fn parse_json(text: &str) -> (r: Result<JsonValue, String>)
    ensures
        r == json_document(text@),
{
    serde_json::from_str::<serde_json::Value>(text).map(json_of).map_err(|e| e.to_string())
}

/// Parses a JSON array document with `serde_json::from_str::<Vec<Value>>`,
/// keeping the error's text. The result is named by `json_array_document` of
/// the text; the JSON grammar is not stated.
#[verifier::external_body]
pub(crate) fn parse_json_array(text: &str) -> (r: Result<Vec<JsonValue>, String>)
    ensures
        r == json_array_document(text@),
{
    serde_json::from_str::<Vec<serde_json::Value>>(text)
        .map(|items| items.into_iter().map(json_of).collect())
        .map_err(|e| e.to_string())
}

/// How serde_json writes a character inside a string literal: `"` and the
/// backslash after a backslash; backspace, tab, line feed, form feed and
/// carriage return as a backslash and `b`, `t`, `n`, `f`, `r`; other
/// characters below 0x20 as a backslash, `u00` and two lowercase hex digits;
/// everything else as it is.
pub open spec fn json_escape(c: char) -> Seq<char> {
    let n = c as u32;
    if c == '"' {
        seq!['\\', '"']
    } else if c == '\\' {
        seq!['\\', '\\']
    } else if n == 8 {
        seq!['\\', 'b']
    } else if n == 9 {
        seq!['\\', 't']
    } else if n == 10 {
        seq!['\\', 'n']
    } else if n == 12 {
        seq!['\\', 'f']
    } else if n == 13 {
        seq!['\\', 'r']
    } else if n < 32 {
        seq!['\\', 'u', '0', '0', hex_digit(n / 16), hex_digit(n % 16)]
    } else {
        seq![c]
    }
}

/// A lowercase hexadecimal digit.
pub open spec fn hex_digit(n: u32) -> char {
    if n < 10 {
        (48 + n) as char
    } else {
        (87 + n) as char
    }
}

/// The characters of a text, each escaped.
pub open spec fn json_escaped(s: Seq<char>) -> Seq<char>
    decreases s.len(),
{
    if s.len() == 0 {
        Seq::empty()
    } else {
        json_escaped(s.drop_last()) + json_escape(s.last())
    }
}

/// A text as a JSON string literal.
pub open spec fn json_quoted(s: Seq<char>) -> Seq<char> {
    seq!['"'] + json_escaped(s) + seq!['"']
}

/// A text as a JSON string literal (`serde_json::to_string` of a `&str`,
/// which cannot fail): `json_quoted`.
#[verifier::external_body]
pub(crate) fn json_string(s: &str) -> (r: String)
    ensures
        r@ == json_quoted(s@),
{
    serde_json::to_string(s).unwrap_or_default()
}

} // verus!
