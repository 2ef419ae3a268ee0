//! The one error type that every call of this library reports.

use vstd::prelude::*;
use vstd::string::to_string_from_display_ensures;

verus! {

/// The characters of an optional string.
pub open spec fn opt_text(s: Option<String>) -> Option<Seq<char>> {
    match s {
        Some(s) => Some(s@),
        None => None,
    }
}

/// An error as a mathematical value.
pub struct ErrorPayload {
    pub message: Seq<char>,
    pub error_type: Seq<char>,
    pub param: Option<Seq<char>>,
    pub code: Option<Seq<char>>,
}

/// An error reported by a provider, by the transport or by a decoder.
#[derive(Debug, Clone, PartialEq, Eq)]
pub struct OpenAiError {
    pub message: String,
    pub error_type: String,
    pub param: Option<String>,
    pub code: Option<String>,
}

impl View for OpenAiError {
    type V = ErrorPayload;

    open spec fn view(&self) -> ErrorPayload {
        ErrorPayload {
            message: self.message@,
            error_type: self.error_type@,
            param: opt_text(self.param),
            code: opt_text(self.code),
        }
    }
}

/// `serde_json::Error`, carried through as a value that is not looked into.
#[verifier::external_type_specification]
#[verifier::external_body]
pub struct ExJsonError(serde_json::Error);

/// `reqwest::Error`, carried through as a value that is not looked into.
#[verifier::external_type_specification]
#[verifier::external_body]
pub struct ExTransportError(reqwest::Error);

/// `std::io::Error`, carried through as a value that is not looked into.
#[verifier::external_type_specification]
#[verifier::external_body]
pub struct ExIoError(std::io::Error);

impl OpenAiError {
    /// An error with a message and a type, and neither parameter nor code.
    pub fn new(message: String, error_type: String) -> (r: OpenAiError)
        ensures
            r == (OpenAiError { message, error_type, param: None, code: None }),
    {
        OpenAiError { message, error_type, param: None, code: None }
    }

    /// The text shown for this error: its message.
    pub fn to_string(&self) -> (r: String)
        ensures
            r@ == self.message@,
    {
        self.message.clone()
    }
}

/// The text that a `serde_json::Error` displays: its message and, where the
/// error has one, the line and column. Nothing more is said of it here.
pub uninterp spec fn json_error_text(error: serde_json::Error) -> Seq<char>;

/// Calls `to_string` on a `serde_json::Error`, which runs its `Display`. The
/// contract is stated, not proved: the result is the text that the error
/// displays, which depends on the error alone.
#[verifier::external_body]
fn display_json_error(error: &serde_json::Error) -> (r: String)
    ensures
        r@ == json_error_text(*error),
{
    error.to_string()
}

impl From<serde_json::Error> for OpenAiError {
    /// A parser's complaint becomes an error of type `json_parse_error` whose
    /// message is the text that the parser's error displays.
    fn from(error: serde_json::Error) -> (r: OpenAiError)
        ensures
            r@ == (ErrorPayload {
                message: json_error_text(error),
                error_type: "json_parse_error"@,
                param: None,
                code: None,
            }),
    {
        let message = display_json_error(&error);
        OpenAiError::new(message, String::from_str("json_parse_error"))
    }
}

impl vstd::std_specs::convert::FromSpecImpl<serde_json::Error> for OpenAiError {
    open spec fn obeys_from_spec() -> bool {
        false
    }

    open spec fn from_spec(error: serde_json::Error) -> OpenAiError {
        arbitrary()
    }
}

impl From<reqwest::Error> for OpenAiError {
    /// A transport failure becomes an error of type `reqwest` whose message
    /// is what the failure displays.
    fn from(value: reqwest::Error) -> (r: OpenAiError)
        ensures
            to_string_from_display_ensures::<reqwest::Error>(&value, r.message),
            r.error_type@ == "reqwest"@,
            r.param is None,
            r.code is None,
    {
        OpenAiError::new(value.to_string(), String::from_str("reqwest"))
    }
}

impl vstd::std_specs::convert::FromSpecImpl<reqwest::Error> for OpenAiError {
    open spec fn obeys_from_spec() -> bool {
        false
    }

    open spec fn from_spec(value: reqwest::Error) -> OpenAiError {
        arbitrary()
    }
}

impl From<std::io::Error> for OpenAiError {
    /// An input or output failure becomes an error of type `io` whose message
    /// is what the failure displays.
    fn from(value: std::io::Error) -> (r: OpenAiError)
        ensures
            to_string_from_display_ensures::<std::io::Error>(&value, r.message),
            r.error_type@ == "io"@,
            r.param is None,
            r.code is None,
    {
        OpenAiError::new(value.to_string(), String::from_str("io"))
    }
}

impl vstd::std_specs::convert::FromSpecImpl<std::io::Error> for OpenAiError {
    open spec fn obeys_from_spec() -> bool {
        false
    }

    open spec fn from_spec(value: std::io::Error) -> OpenAiError {
        arbitrary()
    }
}

} // verus!
