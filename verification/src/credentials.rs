//! Who is calling which provider: the key, the base address and the provider
//! that the address belongs to.

use crate::error::{ErrorPayload, OpenAiError};
use vstd::prelude::*;

verus! {

/// The two providers.
#[derive(Debug, Clone, Copy, PartialEq, Eq, Structural)]
pub enum ApiProvider {
    OpenAI,
    Anthropic,
}

/// Whether `needle` occurs in `hay` as a run of consecutive characters.
pub open spec fn occurs_in(needle: Seq<char>, hay: Seq<char>) -> bool {
    exists|i: int|
        0 <= i <= hay.len() - needle.len() && #[trigger] hay.subrange(i, i + needle.len())
            == needle
}

/// Whether an address ends in the path separator.
pub open spec fn ends_with_slash(url: Seq<char>) -> bool {
    url.len() > 0 && url.last() == '/'
}

/// An address with the path separator at its end.
pub open spec fn normalized(url: Seq<char>) -> Seq<char> {
    if ends_with_slash(url) {
        url
    } else {
        url.push('/')
    }
}

/// The provider that an address names: the first provider if its marker
/// occurs in the address, else the second if its marker does.
pub open spec fn provider_of(url: Seq<char>) -> Option<ApiProvider> {
    if occurs_in("openai"@, url) {
        Some(ApiProvider::OpenAI)
    } else if occurs_in("anthropic"@, url) {
        Some(ApiProvider::Anthropic)
    } else {
        None
    }
}

/// The error for a missing or unusable setting.
pub open spec fn configuration_payload(message: Seq<char>) -> ErrorPayload {
    ErrorPayload { message, error_type: "configuration_error"@, param: None, code: None }
}

/// Calls `str::contains` with a string as the pattern. The contract is
/// stated, not proved: the result says whether the pattern occurs in the
/// text.
#[verifier::external_body]
fn contains_text(hay: &str, needle: &str) -> (r: bool)
    ensures
        r == occurs_in(needle@, hay@),
{
    hay.contains(needle)
}

/// Appends the path separator to an address that lacks it.
pub fn parse_base_url(value: String) -> (r: String)
    ensures
        r@ == normalized(value@),
        ends_with_slash(r@),
{
    let n: usize = value.as_str().unicode_len();
    if n > 0 && value.as_str().get_char(n - 1) == '/' {
        value
    } else {
        proof {
            reveal_strlit("/");
        }
        let r = value.concat("/");
        assert(r@ =~= value@.push('/'));
        r
    }
}

/// Appending the separator twice is appending it once.
pub proof fn lemma_normalized_idempotent(url: Seq<char>)
    ensures
        normalized(normalized(url)) == normalized(url),
        ends_with_slash(normalized(url)),
{
}

/// The marker in an address decides the provider: the first provider's
/// marker wins, the second provider's decides where the first is absent, and
/// an address with neither names no provider.
pub proof fn lemma_marker_decides(url: Seq<char>)
    ensures
        occurs_in("openai"@, url) ==> provider_of(url) == Some(ApiProvider::OpenAI),
        occurs_in("anthropic"@, url) && !occurs_in("openai"@, url) ==> provider_of(url) == Some(
            ApiProvider::Anthropic,
        ),
        !occurs_in("anthropic"@, url) && !occurs_in("openai"@, url) ==> provider_of(url) is None,
{
}

/// The variables that hold a provider's key and base address.
pub open spec fn variable_names(provider: ApiProvider) -> (Seq<char>, Seq<char>) {
    match provider {
        ApiProvider::OpenAI => ("OPENAI_KEY"@, "OPENAI_BASE_URL"@),
        ApiProvider::Anthropic => ("ANTHROPIC_KEY"@, "ANTHROPIC_URL"@),
    }
}

/// The message for a variable that is not set.
pub open spec fn missing_variable(name: Seq<char>) -> Seq<char> {
    "Environment variable "@ + name + " is not set"@
}

/// The message for an address that names no provider.
pub open spec fn unrecognized(url: Seq<char>) -> Seq<char> {
    "Unrecognized base URL: "@ + url
}

/// Credentials as a mathematical value.
pub struct CredentialsView {
    pub provider: ApiProvider,
    pub api_key: Seq<char>,
    pub base_url: Seq<char>,
}

/// A key and a base address for one provider. The address always ends in the
/// path separator.
#[derive(Debug, PartialEq, Eq)]
pub struct Credentials {
    provider: ApiProvider,
    api_key: String,
    base_url: String,
}

impl View for Credentials {
    type V = CredentialsView;

    closed spec fn view(&self) -> CredentialsView {
        CredentialsView {
            provider: self.provider,
            api_key: self.api_key@,
            base_url: self.base_url@,
        }
    }
}

impl Clone for Credentials {
    fn clone(&self) -> (r: Credentials)
        ensures
            r@ == self@,
    {
        proof {
            use_type_invariant(self);
        }
        Credentials {
            provider: self.provider,
            api_key: self.api_key.clone(),
            base_url: self.base_url.clone(),
        }
    }
}

impl Credentials {
    #[verifier::type_invariant]
    spec fn separator_at_end(self) -> bool {
        ends_with_slash(self.base_url@)
    }

    /// Credentials for the provider that the base address names. An address
    /// that names neither provider is a configuration error.
    pub fn new(api_key: String, base_url: String) -> (r: Result<Credentials, OpenAiError>)
        ensures
            match r {
                Ok(c) => provider_of(normalized(base_url@)) == Some(c@.provider) && c@.api_key
                    == api_key@ && c@.base_url == normalized(base_url@),
                Err(e) => provider_of(normalized(base_url@)) is None && e@
                    == configuration_payload(unrecognized(normalized(base_url@))),
            },
    {
        let base_url = parse_base_url(base_url);
        match Self::infer_provider(base_url.as_str()) {
            Ok(provider) => Ok(Credentials { api_key, base_url, provider }),
            Err(e) => Err(e),
        }
    }

    /// The names of the variables that hold a provider's key and base
    /// address.
    pub fn env_names(provider: ApiProvider) -> (r: (&'static str, &'static str))
        ensures
            (r.0@, r.1@) == variable_names(provider),
    {
        match provider {
            ApiProvider::OpenAI => ("OPENAI_KEY", "OPENAI_BASE_URL"),
            ApiProvider::Anthropic => ("ANTHROPIC_KEY", "ANTHROPIC_URL"),
        }
    }

    /// Credentials for `provider` from what its two variables hold. A
    /// variable that is not set is a configuration error, the key's first.
    pub fn from_env(provider: ApiProvider, api_key: Option<String>, base_url: Option<String>) -> (r:
        Result<Credentials, OpenAiError>)
        ensures
            match r {
                Ok(c) => api_key is Some && base_url is Some && c@ == (CredentialsView {
                    provider,
                    api_key: api_key.unwrap()@,
                    base_url: normalized(base_url.unwrap()@),
                }),
                Err(e) => if api_key is None {
                    e@ == configuration_payload(missing_variable(variable_names(provider).0))
                } else {
                    base_url is None && e@ == configuration_payload(
                        missing_variable(variable_names(provider).1),
                    )
                },
            },
    {
        let names = Self::env_names(provider);
        let api_key = match api_key {
            Some(key) => key,
            None => { return Err(missing(names.0)); },
        };
        let base_url = match base_url {
            Some(url) => parse_base_url(url),
            None => { return Err(missing(names.1)); },
        };
        Ok(Credentials { api_key, base_url, provider })
    }

    /// The provider that a base address names, or a configuration error for
    /// an address that names neither.
    pub fn infer_provider(base_url: &str) -> (r: Result<ApiProvider, OpenAiError>)
        ensures
            match r {
                Ok(provider) => provider_of(base_url@) == Some(provider),
                Err(e) => provider_of(base_url@) is None && e@ == configuration_payload(
                    unrecognized(base_url@),
                ),
            },
    {
        if contains_text(base_url, "openai") {
            Ok(ApiProvider::OpenAI)
        } else if contains_text(base_url, "anthropic") {
            Ok(ApiProvider::Anthropic)
        } else {
            let message = String::from_str("Unrecognized base URL: ").concat(base_url);
            Err(OpenAiError::new(message, String::from_str("configuration_error")))
        }
    }

    /// The key.
    pub fn api_key(&self) -> (r: &str)
        ensures
            r@ == self@.api_key,
    {
        self.api_key.as_str()
    }

    /// The base address, which ends in the path separator.
    pub fn base_url(&self) -> (r: &str)
        ensures
            r@ == self@.base_url,
            ends_with_slash(r@),
    {
        proof {
            use_type_invariant(self);
        }
        self.base_url.as_str()
    }

    /// The provider.
    pub fn provider(&self) -> (r: &ApiProvider)
        ensures
            *r == self@.provider,
    {
        &self.provider
    }

    /// The credentials of one call: the explicit ones if there are any, else
    /// what `default` hands out. The default is asked for only where it is
    /// needed.
    pub fn resolve<F: FnOnce() -> Credentials>(explicit: Option<Credentials>, default: F) -> (r:
        Credentials)
        requires
            explicit is None ==> call_requires(default, ()),
        ensures
            match explicit {
                Some(c) => r == c,
                None => call_ensures(default, (), r),
            },
    {
        match explicit {
            Some(c) => c,
            None => default(),
        }
    }
}

/// The configuration error for a variable that is not set.
fn missing(name: &str) -> (r: OpenAiError)
    ensures
        r@ == configuration_payload(missing_variable(name@)),
{
    let message = String::from_str("Environment variable ").concat(name).concat(" is not set");
    OpenAiError::new(message, String::from_str("configuration_error"))
}

/// Replaces the key.
pub fn set_key(credentials: &mut Credentials, value: String)
    ensures
        final(credentials)@ == (CredentialsView { api_key: value@, ..old(credentials)@ }),
{
    proof {
        use_type_invariant(&*credentials);
    }
    credentials.api_key = value;
}

/// Replaces the base address by `value` with the path separator at its end.
/// An empty `value` changes nothing.
pub fn set_base_url(credentials: &mut Credentials, value: String)
    ensures
        final(credentials)@ == (if value@.len() == 0 {
            old(credentials)@
        } else {
            CredentialsView { base_url: normalized(value@), ..old(credentials)@ }
        }),
{
    if value.as_str().is_empty() {
        return ;
    }
    let value = parse_base_url(value);
    credentials.base_url = value;
}

} // verus!
