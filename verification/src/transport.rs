//! What a call sends: the address and the headers that identify the caller
//! to the provider. The exchange itself is the caller's.

use crate::credentials::{ApiProvider, Credentials};
use crate::envelope::views;
use vstd::prelude::*;

verus! {

/// A header as a mathematical value.
pub struct HeaderView {
    pub name: Seq<char>,
    pub value: Seq<char>,
}

/// One header of a request.
#[derive(Debug, Clone, PartialEq, Eq)]
pub struct Header {
    pub name: String,
    pub value: String,
}

impl View for Header {
    type V = HeaderView;

    open spec fn view(&self) -> HeaderView {
        HeaderView { name: self.name@, value: self.value@ }
    }
}

/// A request as a mathematical value.
pub struct Prepared {
    pub url: Seq<char>,
    pub headers: Seq<HeaderView>,
}

/// The address and the headers of one request.
#[derive(Debug, Clone, PartialEq, Eq)]
pub struct PreparedRequest {
    pub url: String,
    pub headers: Vec<Header>,
}

impl View for PreparedRequest {
    type V = Prepared;

    open spec fn view(&self) -> Prepared {
        Prepared { url: self.url@, headers: views(self.headers@) }
    }
}

/// The headers of the first provider: the key as a bearer token.
pub open spec fn openai_headers(api_key: Seq<char>) -> Seq<HeaderView> {
    seq![HeaderView { name: "authorization"@, value: "Bearer "@ + api_key }]
}

/// The headers of the second provider: the key, the version of its protocol
/// and the type of the body.
pub open spec fn anthropic_headers(api_key: Seq<char>) -> Seq<HeaderView> {
    seq![
        HeaderView { name: "x-api-key"@, value: api_key },
        HeaderView { name: "anthropic-version"@, value: "2023-06-01"@ },
        HeaderView { name: "content-type"@, value: "application/json"@ },
    ]
}

/// The headers that a provider asks for.
pub open spec fn auth_headers(provider: ApiProvider, api_key: Seq<char>) -> Seq<HeaderView> {
    match provider {
        ApiProvider::OpenAI => openai_headers(api_key),
        ApiProvider::Anthropic => anthropic_headers(api_key),
    }
}

/// Builds a header.
fn header(name: &str, value: String) -> (r: Header)
    ensures
        r@ == (HeaderView { name: name@, value: value@ }),
{
    Header { name: String::from_str(name), value }
}

/// A request to the first provider: the route behind the base address, and
/// the key as a bearer token.
pub fn openai_request(route: &str, credentials: &Credentials) -> (r: PreparedRequest)
    ensures
        r@ == (Prepared {
            url: credentials@.base_url + route@,
            headers: openai_headers(credentials@.api_key),
        }),
{
    let url = String::from_str(credentials.base_url()).concat(route);
    let mut headers: Vec<Header> = Vec::new();
    headers.push(
        header("authorization", String::from_str("Bearer ").concat(credentials.api_key())),
    );
    let r = PreparedRequest { url, headers };
    assert(r@.headers =~= openai_headers(credentials@.api_key));
    r
}

/// A request to the second provider: the route behind the base address, and
/// the provider's three headers.
pub fn anthropic_request(route: &str, credentials: &Credentials) -> (r: PreparedRequest)
    ensures
        r@ == (Prepared {
            url: credentials@.base_url + route@,
            headers: anthropic_headers(credentials@.api_key),
        }),
{
    let url = String::from_str(credentials.base_url()).concat(route);
    let mut headers: Vec<Header> = Vec::new();
    headers.push(header("x-api-key", String::from_str(credentials.api_key())));
    headers.push(header("anthropic-version", String::from_str("2023-06-01")));
    headers.push(header("content-type", String::from_str("application/json")));
    let r = PreparedRequest { url, headers };
    assert(r@.headers =~= anthropic_headers(credentials@.api_key));
    r
}

/// A request to the provider that the credentials name.
pub fn prepare_request(route: &str, credentials: &Credentials) -> (r: PreparedRequest)
    ensures
        r@ == (Prepared {
            url: credentials@.base_url + route@,
            headers: auth_headers(credentials@.provider, credentials@.api_key),
        }),
{
    match credentials.provider() {
        ApiProvider::OpenAI => openai_request(route, credentials),
        ApiProvider::Anthropic => anthropic_request(route, credentials),
    }
}

/// The two providers share no header: what identifies a caller to the one
/// says nothing to the other.
pub proof fn lemma_schemes_exclusive(first_key: Seq<char>, second_key: Seq<char>, i: int, j: int)
    requires
        0 <= i < openai_headers(first_key).len(),
        0 <= j < anthropic_headers(second_key).len(),
    ensures
        openai_headers(first_key)[i].name != anthropic_headers(second_key)[j].name,
{
    reveal_strlit("authorization");
    reveal_strlit("x-api-key");
    reveal_strlit("anthropic-version");
    reveal_strlit("content-type");
    assert("authorization"@.len() == 13);
    assert("x-api-key"@.len() == 9);
    assert("anthropic-version"@.len() == 17);
    assert("content-type"@.len() == 12);
}

} // verus!
