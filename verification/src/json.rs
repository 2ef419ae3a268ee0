//! JSON documents as plain values, and the parser that produces them.

use crate::error::json_error_text;
use vstd::prelude::*;

verus! {

/// A JSON document as a mathematical value. Numbers are kept as their decimal
/// text; an object is the sequence of its members.
pub enum JsonValue {
    Null,
    Bool(bool),
    Number(Seq<char>),
    Text(Seq<char>),
    Array(Seq<JsonValue>),
    Object(Seq<(Seq<char>, JsonValue)>),
}

/// The first member named `key` at or after position `start`.
pub open spec fn lookup_from(
    fields: Seq<(Seq<char>, JsonValue)>,
    key: Seq<char>,
    start: int,
) -> Option<JsonValue>
    decreases fields.len() - start,
{
    if start < 0 || start >= fields.len() {
        None
    } else if fields[start].0 == key {
        Some(fields[start].1)
    } else {
        lookup_from(fields, key, start + 1)
    }
}

/// Whether `c` is one of the ten decimal digits.
pub open spec fn is_digit(c: char) -> bool {
    '0' <= c <= '9'
}

/// Whether `s` is a non-empty run of decimal digits.
pub open spec fn is_decimal(s: Seq<char>) -> bool {
    s.len() > 0 && forall|i: int| 0 <= i < s.len() ==> is_digit(#[trigger] s[i])
}

/// The number that the digits of `s` write in base ten.
pub open spec fn decimal_value(s: Seq<char>) -> nat
    decreases s.len(),
{
    if s.len() == 0 {
        0
    } else {
        (decimal_value(s.drop_last()) * 10 + (s.last() as int - '0' as int)) as nat
    }
}

/// The unsigned integer below `limit` that `s` writes, if it writes one.
pub open spec fn decimal_below(s: Seq<char>, limit: int) -> Option<nat> {
    if is_decimal(s) && decimal_value(s) <= limit {
        Some(decimal_value(s))
    } else {
        None
    }
}

impl JsonValue {
    /// The member `key` of an object; `None` for a missing member and for
    /// anything that is not an object.
    pub open spec fn member(self, key: Seq<char>) -> Option<JsonValue> {
        match self {
            JsonValue::Object(fields) => lookup_from(fields, key, 0),
            _ => None,
        }
    }

    /// The characters of a string value.
    pub open spec fn text(self) -> Option<Seq<char>> {
        match self {
            JsonValue::Text(s) => Some(s),
            _ => None,
        }
    }

    /// The elements of an array value.
    pub open spec fn items(self) -> Option<Seq<JsonValue>> {
        match self {
            JsonValue::Array(items) => Some(items),
            _ => None,
        }
    }

    /// The value of a number written as a plain unsigned integer no greater
    /// than `limit`.
    pub open spec fn unsigned(self, limit: int) -> Option<nat> {
        match self {
            JsonValue::Number(digits) => decimal_below(digits, limit),
            _ => None,
        }
    }
}

/// A JSON document held in memory.
#[derive(Debug, PartialEq, Eq)]
pub enum Json {
    Null,
    Bool(bool),
    Number(String),
    Text(String),
    Array(Vec<Json>),
    Object(Vec<(String, Json)>),
}

impl Json {
    /// The mathematical value of this document.
    pub open spec fn model(self) -> JsonValue
        decreases self,
    {
        match self {
            Json::Null => JsonValue::Null,
            Json::Bool(b) => JsonValue::Bool(b),
            Json::Number(n) => JsonValue::Number(n@),
            Json::Text(s) => JsonValue::Text(s@),
            Json::Array(items) => JsonValue::Array(
                Seq::new(
                    items@.len(),
                    |i: int|
                        if 0 <= i < items@.len() {
                            items@[i].model()
                        } else {
                            JsonValue::Null
                        },
                ),
            ),
            Json::Object(fields) => JsonValue::Object(
                Seq::new(
                    fields@.len(),
                    |i: int|
                        if 0 <= i < fields@.len() {
                            (fields@[i].0@, fields@[i].1.model())
                        } else {
                            (Seq::empty(), JsonValue::Null)
                        },
                ),
            ),
        }
    }
}

impl View for Json {
    type V = JsonValue;

    open spec fn view(&self) -> JsonValue {
        self.model()
    }
}

/// Whether two strings hold the same characters.
pub fn same_text(a: &str, b: &str) -> (r: bool)
    ensures
        r == (a@ == b@),
{
    let left = a.to_owned();
    let right = b.to_owned();
    left == right
}

/// Digits only grow a number: a prefix of a run of digits writes no more than
/// the whole run.
pub proof fn lemma_decimal_prefix(s: Seq<char>, k: int)
    requires
        0 <= k <= s.len(),
        forall|i: int| 0 <= i < s.len() ==> is_digit(#[trigger] s[i]),
    ensures
        decimal_value(s.subrange(0, k)) <= decimal_value(s),
    decreases s.len() - k,
{
    if k == s.len() {
        assert(s.subrange(0, k) =~= s);
    } else {
        lemma_decimal_prefix(s, k + 1);
        let longer = s.subrange(0, k + 1);
        assert(longer.drop_last() =~= s.subrange(0, k));
        assert(longer.last() == s[k]);
        assert(is_digit(s[k]));
    }
}

/// Reads a run of decimal digits as an unsigned integer no greater than
/// `limit`.
pub fn parse_decimal(s: &str, limit: u64) -> (r: Option<u64>)
    ensures
        match r {
            Some(n) => decimal_below(s@, limit as int) == Some(n as nat),
            None => decimal_below(s@, limit as int) is None,
        },
{
    if !s.is_ascii() {
        proof {
            if is_decimal(s@) {
                assert forall|i: int| 0 <= i < s@.len() implies '\0' <= #[trigger] s@[i]
                    <= '\u{7f}' by {
                    assert(is_digit(s@[i]));
                }
                assert(vstd::utf8::is_ascii_chars(s@));
            }
        }
        return None;
    }
    let n: usize = s.unicode_len();
    if n == 0 {
        return None;
    }
    let mut acc: u64 = 0;
    let mut i: usize = 0;
    while i < n
        invariant
            s.is_ascii(),
            n == s@.len(),
            0 <= i <= n,
            forall|j: int| 0 <= j < i ==> is_digit(#[trigger] s@[j]),
            acc as nat == decimal_value(s@.subrange(0, i as int)),
            acc <= limit,
        decreases n - i,
    {
        let b: u8 = s.get_ascii(i);
        if b < 48 || b > 57 {
            assert(!is_digit(s@[i as int]));
            return None;
        }
        let d: u64 = (b - 48) as u64;
        proof {
            let longer = s@.subrange(0, i + 1);
            assert(longer.drop_last() =~= s@.subrange(0, i as int));
            assert(longer.last() == s@[i as int]);
            assert(decimal_value(longer) == acc * 10 + d);
            if is_decimal(s@) {
                lemma_decimal_prefix(s@, i + 1);
            }
        }
        if acc > limit / 10 || d > limit - acc * 10 {
            return None;
        }
        acc = acc * 10 + d;
        i = i + 1;
    }
    assert(s@.subrange(0, n as int) =~= s@);
    Some(acc)
}

impl Json {
    /// The member `key` of an object.
    pub fn get(&self, key: &str) -> (r: Option<&Json>)
        ensures
            match r {
                Some(found) => self@.member(key@) == Some(found@),
                None => self@.member(key@) is None,
            },
    {
        match self {
            Json::Object(fields) => {
                let mut i: usize = 0;
                while i < fields.len()
                    invariant
                        0 <= i <= fields@.len(),
                        self@ is Object,
                        self@->Object_0.len() == fields@.len(),
                        forall|j: int|
                            0 <= j < fields@.len() ==> #[trigger] self@->Object_0[j] == (
                                fields@[j].0@,
                                fields@[j].1@,
                            ),
                        lookup_from(self@->Object_0, key@, 0) == lookup_from(
                            self@->Object_0,
                            key@,
                            i as int,
                        ),
                    decreases fields@.len() - i,
                {
                    if same_text(fields[i].0.as_str(), key) {
                        return Some(&fields[i].1);
                    }
                    i = i + 1;
                }
                None
            },
            _ => None,
        }
    }

    /// The characters of a string value.
    pub fn as_text(&self) -> (r: Option<&String>)
        ensures
            match r {
                Some(s) => self@.text() == Some(s@),
                None => self@.text() is None,
            },
    {
        match self {
            Json::Text(s) => Some(s),
            _ => None,
        }
    }

    /// The elements of an array value.
    pub fn as_items(&self) -> (r: Option<&Vec<Json>>)
        ensures
            match r {
                Some(items) => self@.items() == Some(Seq::new(items@.len(), |i: int| items@[i]@)),
                None => self@.items() is None,
            },
    {
        match self {
            Json::Array(items) => {
                assert(self@->Array_0 =~= Seq::new(items@.len(), |i: int| items@[i]@));
                Some(items)
            },
            _ => None,
        }
    }

    /// The value of a number written as a plain unsigned integer no greater
    /// than `limit`.
    pub fn as_unsigned(&self, limit: u64) -> (r: Option<u64>)
        ensures
            match r {
                Some(n) => self@.unsigned(limit as int) == Some(n as nat),
                None => self@.unsigned(limit as int) is None,
            },
    {
        match self {
            Json::Number(digits) => parse_decimal(digits.as_str(), limit),
            _ => None,
        }
    }

    /// Whether this is the value `null`.
    pub fn is_null(&self) -> (r: bool)
        ensures
            r == (self@ is Null),
    {
        match self {
            Json::Null => true,
            _ => false,
        }
    }
}

/// `serde_json::Value`, carried through as a value that is not looked into.
#[verifier::external_type_specification]
#[verifier::external_body]
pub struct ExJsonDocument(serde_json::Value);

/// What `serde_json::from_str` makes of a text: the document that the text
/// writes, or the text that the parser's error displays. Which texts write
/// which documents is the parser's matter and is not said here.
pub uninterp spec fn parsed_json(text: Seq<char>) -> Result<JsonValue, Seq<char>>;

/// The document that a `serde_json::Value` holds.
pub uninterp spec fn value_document(value: serde_json::Value) -> JsonValue;

/// Moves a `serde_json::Value` into a [`Json`], variant by variant: a number
/// becomes the text that `serde_json::Number` displays, an object the list
/// of its members in the order in which `serde_json::Map` hands them out.
/// The contract is stated, not proved: the result holds the document that
/// the value holds.
#[verifier::external_body]
fn lower(value: serde_json::Value) -> (r: Json)
    ensures
        r@ == value_document(value),
{
    match value {
        serde_json::Value::Null => Json::Null,
        serde_json::Value::Bool(b) => Json::Bool(b),
        serde_json::Value::Number(n) => Json::Number(n.to_string()),
        serde_json::Value::String(s) => Json::Text(s),
        serde_json::Value::Array(items) => Json::Array(items.into_iter().map(lower).collect()),
        serde_json::Value::Object(fields) => Json::Object(
            fields.into_iter().map(|(k, v)| (k, lower(v))).collect(),
        ),
    }
}

/// Calls `serde_json::from_str` for a `serde_json::Value`. The contract is
/// stated, not proved: the result is the parser's reading of the text, which
/// depends on the text alone.
#[verifier::external_body]
fn read_value(text: &str) -> (r: Result<serde_json::Value, serde_json::Error>)
    ensures
        match r {
            Ok(value) => parsed_json(text@) == Ok::<JsonValue, Seq<char>>(value_document(value)),
            Err(error) => parsed_json(text@) == Err::<JsonValue, Seq<char>>(json_error_text(error)),
        },
{
    serde_json::from_str::<serde_json::Value>(text)
}

/// Parses a text into a document.
pub fn parse_value(text: &str) -> (r: Result<Json, serde_json::Error>)
    ensures
        match r {
            Ok(document) => parsed_json(text@) == Ok::<JsonValue, Seq<char>>(document@),
            Err(error) => parsed_json(text@) == Err::<JsonValue, Seq<char>>(json_error_text(error)),
        },
{
    match read_value(text) {
        Ok(value) => Ok(lower(value)),
        Err(error) => Err(error),
    }
}

} // verus!
