//! Decoding a response body that holds either a payload or an error.

use crate::error::{ErrorPayload, OpenAiError};
use crate::json::{parse_value, parsed_json, Json, JsonValue};
use vstd::prelude::*;

verus! {

/// A string member that must be present.
pub open spec fn required_text(v: JsonValue, key: Seq<char>) -> Option<Seq<char>> {
    match v.member(key) {
        Some(m) => m.text(),
        None => None,
    }
}

/// A string member that may be missing or `null`. The outer `None` says that
/// the member holds something else.
pub open spec fn optional_text(v: JsonValue, key: Seq<char>) -> Option<Option<Seq<char>>> {
    match v.member(key) {
        None => Some(None),
        Some(JsonValue::Null) => Some(None),
        Some(JsonValue::Text(s)) => Some(Some(s)),
        Some(_) => None,
    }
}

/// An unsigned integer member that must be present and no greater than
/// `limit`.
pub open spec fn required_unsigned(v: JsonValue, key: Seq<char>, limit: int) -> Option<nat> {
    match v.member(key) {
        Some(m) => m.unsigned(limit),
        None => None,
    }
}

/// Reads a string member that must be present.
pub fn read_text(json: &Json, key: &str) -> (r: Option<String>)
    ensures
        match r {
            Some(s) => required_text(json@, key@) == Some(s@),
            None => required_text(json@, key@) is None,
        },
{
    match json.get(key) {
        Some(member) => match member.as_text() {
            Some(s) => Some(s.clone()),
            None => None,
        },
        None => None,
    }
}

/// Reads a string member that may be missing or `null`.
pub fn read_optional_text(json: &Json, key: &str) -> (r: Option<Option<String>>)
    ensures
        match r {
            Some(Some(s)) => optional_text(json@, key@) == Some(Some(s@)),
            Some(None) => optional_text(json@, key@) == Some(None::<Seq<char>>),
            None => optional_text(json@, key@) is None,
        },
{
    match json.get(key) {
        None => Some(None),
        Some(member) => match member {
            Json::Null => Some(None),
            Json::Text(s) => Some(Some(s.clone())),
            _ => None,
        },
    }
}

/// Reads an unsigned integer member that must be present and no greater than
/// `limit`.
pub fn read_unsigned(json: &Json, key: &str, limit: u64) -> (r: Option<u64>)
    ensures
        match r {
            Some(n) => required_unsigned(json@, key@, limit as int) == Some(n as nat),
            None => required_unsigned(json@, key@, limit as int) is None,
        },
{
    match json.get(key) {
        Some(member) => member.as_unsigned(limit),
        None => None,
    }
}

/// A type with a JSON shape: `shape` says which documents write a value of
/// the type and which value, `from_json` reads it.
pub trait FromJson: Sized + View {
    /// The value that a document writes, if it has the shape of this type.
    spec fn shape(v: JsonValue) -> Option<Self::V>;

    /// Reads a value from a document of the right shape.
    fn from_json(json: &Json) -> (r: Option<Self>)
        ensures
            match r {
                Some(x) => Self::shape(json@) == Some(x@),
                None => Self::shape(json@) is None,
            },
    ;
}

/// The views of the elements of a list.
pub open spec fn views<C: View>(s: Seq<C>) -> Seq<C::V> {
    Seq::new(s.len(), |i: int| s[i]@)
}

/// The values that the elements of an array write, if each has the shape of
/// `C`.
pub open spec fn list_shape<C: FromJson>(items: Seq<JsonValue>) -> Option<Seq<C::V>> {
    if forall|i: int| 0 <= i < items.len() ==> (#[trigger] C::shape(items[i])) is Some {
        Some(Seq::new(items.len(), |i: int| C::shape(items[i]).unwrap()))
    } else {
        None
    }
}

/// An array member that must be present, each element of the shape of `C`.
pub open spec fn required_list<C: FromJson>(v: JsonValue, key: Seq<char>) -> Option<Seq<C::V>> {
    match v.member(key) {
        Some(JsonValue::Array(items)) => list_shape::<C>(items),
        _ => None,
    }
}

/// A member of the shape of `T` that may be missing or `null`. The outer
/// `None` says that the member holds something else.
pub open spec fn optional_member<T: FromJson>(v: JsonValue, key: Seq<char>) -> Option<
    Option<T::V>,
> {
    match v.member(key) {
        None => Some(None),
        Some(JsonValue::Null) => Some(None),
        Some(m) => match T::shape(m) {
            Some(x) => Some(Some(x)),
            None => None,
        },
    }
}

/// A member of the shape of `T` that must be present.
pub open spec fn required_member<T: FromJson>(v: JsonValue, key: Seq<char>) -> Option<T::V> {
    match v.member(key) {
        Some(m) => T::shape(m),
        None => None,
    }
}

/// An array member, each element of the shape of `C`; a missing member is the
/// empty list.
pub open spec fn list_or_empty<C: FromJson>(v: JsonValue, key: Seq<char>) -> Option<Seq<C::V>> {
    match v.member(key) {
        None => Some(Seq::empty()),
        Some(_) => required_list::<C>(v, key),
    }
}

/// Reads a member of the shape of `T` that must be present.
pub fn read_member<T: FromJson>(json: &Json, key: &str) -> (r: Option<T>)
    ensures
        match r {
            Some(x) => required_member::<T>(json@, key@) == Some(x@),
            None => required_member::<T>(json@, key@) is None,
        },
{
    match json.get(key) {
        Some(member) => T::from_json(member),
        None => None,
    }
}

/// Reads an array member that must be present, element by element.
pub fn read_list<C: FromJson>(json: &Json, key: &str) -> (r: Option<Vec<C>>)
    ensures
        match r {
            Some(list) => required_list::<C>(json@, key@) == Some(views(list@)),
            None => required_list::<C>(json@, key@) is None,
        },
{
    let items = match json.get(key) {
        Some(member) => match member.as_items() {
            Some(items) => items,
            None => { return None; },
        },
        None => { return None; },
    };
    let ghost docs = Seq::new(items@.len(), |i: int| items@[i]@);
    assert(json@.member(key@) == Some(JsonValue::Array(docs)));
    let mut list: Vec<C> = Vec::new();
    let mut i: usize = 0;
    while i < items.len()
        invariant
            0 <= i <= items@.len(),
            list@.len() == i,
            docs == Seq::new(items@.len(), |i: int| items@[i]@),
            required_list::<C>(json@, key@) == list_shape::<C>(docs),
            forall|j: int| 0 <= j < i ==> C::shape(#[trigger] docs[j]) == Some(list@[j]@),
        decreases items@.len() - i,
    {
        match C::from_json(&items[i]) {
            Some(x) => {
                list.push(x);
            },
            None => {
                assert(C::shape(docs[i as int]) is None);
                return None;
            },
        }
        i = i + 1;
    }
    assert(views(list@) =~= Seq::new(docs.len(), |i: int| C::shape(docs[i]).unwrap()));
    Some(list)
}

/// Reads a member of the shape of `T` that may be missing or `null`.
pub fn read_optional<T: FromJson>(json: &Json, key: &str) -> (r: Option<Option<T>>)
    ensures
        match r {
            Some(Some(x)) => optional_member::<T>(json@, key@) == Some(Some(x@)),
            Some(None) => optional_member::<T>(json@, key@) == Some(None::<T::V>),
            None => optional_member::<T>(json@, key@) is None,
        },
{
    match json.get(key) {
        None => Some(None),
        Some(member) => {
            if member.is_null() {
                Some(None)
            } else {
                match T::from_json(member) {
                    Some(x) => Some(Some(x)),
                    None => None,
                }
            }
        },
    }
}

impl FromJson for OpenAiError {
    /// An object with the strings `message` and `type`; `param` and `code`
    /// may each be a string, `null` or missing.
    open spec fn shape(v: JsonValue) -> Option<ErrorPayload> {
        match (
            required_text(v, "message"@),
            required_text(v, "type"@),
            optional_text(v, "param"@),
            optional_text(v, "code"@),
        ) {
            (Some(message), Some(error_type), Some(param), Some(code)) => Some(
                ErrorPayload { message, error_type, param, code },
            ),
            _ => None,
        }
    }

    fn from_json(json: &Json) -> (r: Option<OpenAiError>) {
        let message = match read_text(json, "message") {
            Some(s) => s,
            None => { return None; },
        };
        let error_type = match read_text(json, "type") {
            Some(s) => s,
            None => { return None; },
        };
        let param = match read_optional_text(json, "param") {
            Some(s) => s,
            None => { return None; },
        };
        let code = match read_optional_text(json, "code") {
            Some(s) => s,
            None => { return None; },
        };
        Some(OpenAiError { message, error_type, param, code })
    }
}

/// The error that stands for a body of neither shape.
pub open spec fn mismatch_payload() -> ErrorPayload {
    ErrorPayload {
        message: "data matches neither the payload nor the error shape"@,
        error_type: "json_parse_error"@,
        param: None,
        code: None,
    }
}

/// Builds the error that stands for a body of neither shape.
pub fn mismatch_error() -> (r: OpenAiError)
    ensures
        r@ == mismatch_payload(),
{
    OpenAiError::new(
        String::from_str("data matches neither the payload nor the error shape"),
        String::from_str("json_parse_error"),
    )
}

/// A decoded response body: the provider's error, or the payload.
#[derive(Clone)]
pub enum ApiResponse<T> {
    Failure { error: OpenAiError },
    Success(T),
}

/// What a response body says. A document with a member `error` is the
/// provider's error and never a payload; any other document is a payload if
/// it has the payload's shape. The outer `None` is a body of neither shape.
pub open spec fn envelope<T: FromJson>(v: JsonValue) -> Option<Result<T::V, ErrorPayload>> {
    match v.member("error"@) {
        Some(e) => match OpenAiError::shape(e) {
            Some(payload) => Some(Err(payload)),
            None => None,
        },
        None => match T::shape(v) {
            Some(x) => Some(Ok(x)),
            None => None,
        },
    }
}

/// What the caller gets for a document: the payload, the provider's error,
/// or the error that stands for a body of neither shape.
pub open spec fn outcome<T: FromJson>(v: JsonValue) -> Result<T::V, ErrorPayload> {
    match envelope::<T>(v) {
        Some(r) => r,
        None => Err(mismatch_payload()),
    }
}

/// What the caller gets for a body's text.
pub open spec fn outcome_of_text<T: FromJson>(text: Seq<char>) -> Result<T::V, ErrorPayload> {
    match parsed_json(text) {
        Ok(v) => outcome::<T>(v),
        Err(message) => Err(
            ErrorPayload {
                message,
                error_type: "json_parse_error"@,
                param: None,
                code: None,
            },
        ),
    }
}

/// Whether a result of a call holds what `expected` says.
pub open spec fn result_is<T: View>(r: Result<T, OpenAiError>, expected: Result<T::V, ErrorPayload>) -> bool {
    match (r, expected) {
        (Ok(x), Ok(y)) => x@ == y,
        (Err(e), Err(p)) => e@ == p,
        _ => false,
    }
}

impl<T: FromJson> ApiResponse<T> {
    /// Reads a body that was parsed already. `None` is a body of neither
    /// shape.
    pub fn from_json(json: &Json) -> (r: Option<ApiResponse<T>>)
        ensures
            match r {
                Some(ApiResponse::Success(x)) => envelope::<T>(json@) == Some(
                    Ok::<T::V, ErrorPayload>(x@),
                ),
                Some(ApiResponse::Failure { error }) => envelope::<T>(json@) == Some(
                    Err::<T::V, ErrorPayload>(error@),
                ),
                None => envelope::<T>(json@) is None,
            },
    {
        match json.get("error") {
            Some(member) => match OpenAiError::from_json(member) {
                Some(error) => Some(ApiResponse::Failure { error }),
                None => None,
            },
            None => match T::from_json(json) {
                Some(x) => Some(ApiResponse::Success(x)),
                None => None,
            },
        }
    }

    /// The payload, or the provider's error.
    pub fn into_result(self) -> (r: Result<T, OpenAiError>)
        ensures
            match self {
                ApiResponse::Success(x) => r == Ok::<T, OpenAiError>(x),
                ApiResponse::Failure { error } => r == Err::<T, OpenAiError>(error),
            },
    {
        match self {
            ApiResponse::Success(x) => Ok(x),
            ApiResponse::Failure { error } => Err(error),
        }
    }
}

/// A body is exactly one of three things. With a member `error` it is the
/// provider's error, if the member has the shape of one, and never a
/// payload; without it, it is the payload if it has the payload's shape;
/// anything else is a body of neither shape.
pub proof fn lemma_envelope_shapes<T: FromJson>(v: JsonValue)
    ensures
        v.member("error"@) is Some ==> outcome::<T>(v) is Err,
        v.member("error"@) is Some && OpenAiError::shape(v.member("error"@).unwrap()) is Some
            ==> envelope::<T>(v) == Some(
            Err::<T::V, ErrorPayload>(OpenAiError::shape(v.member("error"@).unwrap()).unwrap()),
        ),
        v.member("error"@) is None && T::shape(v) is Some ==> envelope::<T>(v) == Some(
            Ok::<T::V, ErrorPayload>(T::shape(v).unwrap()),
        ),
        envelope::<T>(v) is None <==> (if v.member("error"@) is Some {
            OpenAiError::shape(v.member("error"@).unwrap()) is None
        } else {
            T::shape(v) is None
        }),
        envelope::<T>(v) is None ==> outcome::<T>(v) == Err::<T::V, ErrorPayload>(
            mismatch_payload(),
        ),
{
}

/// Decodes a body that was parsed already.
pub fn decode_document<T: FromJson>(json: &Json) -> (r: Result<T, OpenAiError>)
    ensures
        result_is(r, outcome::<T>(json@)),
{
    match ApiResponse::<T>::from_json(json) {
        Some(response) => response.into_result(),
        None => Err(mismatch_error()),
    }
}

/// Decodes a response body: parses it once, then reads the provider's error
/// or the payload from the document.
pub fn decode_response<T: FromJson>(text: &str) -> (r: Result<T, OpenAiError>)
    ensures
        result_is(r, outcome_of_text::<T>(text@)),
{
    match parse_value(text) {
        Ok(document) => decode_document::<T>(&document),
        Err(error) => Err(OpenAiError::from(error)),
    }
}

} // verus!
