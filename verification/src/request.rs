//! A request for a chat completion of the second provider, and the builder
//! that sets one up.

use crate::anthrophic_chat::AnthropicChatCompletionGeneric;
use crate::chat::{
    ChatCompletionFunctionDefinition, ChatCompletionMessage, ChatCompletionResponseFormat,
};
use crate::credentials::Credentials;
use crate::json::Json;
use vstd::prelude::*;

verus! {

/// A request for a chat completion of the second provider.
#[derive(Debug)]
pub struct AnthropicChatCompletionRequest {
    /// The model that answers.
    pub model: String,
    /// The system prompt, which the provider takes apart from the turns.
    pub system: Option<String>,
    /// The conversation so far.
    pub messages: Vec<ChatCompletionMessage>,
    /// How many completions to generate.
    pub n: Option<u8>,
    /// Whether the answer is to be streamed.
    pub stream: Option<bool>,
    /// Sequences at which the provider stops generating.
    pub stop: Vec<String>,
    /// A seed for sampling.
    pub seed: Option<u64>,
    /// The most tokens that the answer may have.
    pub max_tokens: Option<i32>,
    /// An identifier of the end user.
    pub user: String,
    /// The functions that the model may call.
    pub functions: Vec<ChatCompletionFunctionDefinition>,
    /// Which function the model is to call, if any.
    pub function_call: Option<Json>,
    /// The kind of output asked for.
    pub response_format: Option<ChatCompletionResponseFormat>,
    /// The credentials of this call, in place of the default ones.
    pub credentials: Option<Credentials>,
}

/// Why a request could not be built.
#[derive(Debug, Clone, PartialEq, Eq)]
pub enum AnthropicChatCompletionBuilderError {
    /// A field without a default was never set.
    UninitializedField(&'static str),
    /// The request is not valid.
    ValidationError(String),
}

impl AnthropicChatCompletionBuilderError {
    /// The text shown for this error.
    pub fn to_string(&self) -> (r: String)
        ensures
            r@ == (match *self {
                AnthropicChatCompletionBuilderError::UninitializedField(field) => "`"@ + field@
                    + "` must be initialized"@,
                AnthropicChatCompletionBuilderError::ValidationError(error) => error@,
            }),
    {
        match self {
            AnthropicChatCompletionBuilderError::UninitializedField(field) => String::from_str(
                "`",
            ).concat(field).concat("` must be initialized"),
            AnthropicChatCompletionBuilderError::ValidationError(error) => error.clone(),
        }
    }
}

/// A request in the making. A field that is `None` was not set.
#[derive(Debug)]
pub struct AnthropicChatCompletionBuilder {
    pub model: Option<String>,
    pub system: Option<Option<String>>,
    pub messages: Option<Vec<ChatCompletionMessage>>,
    pub n: Option<Option<u8>>,
    pub stream: Option<Option<bool>>,
    pub stop: Option<Vec<String>>,
    pub seed: Option<Option<u64>>,
    pub max_tokens: Option<Option<i32>>,
    pub user: Option<String>,
    pub functions: Option<Vec<ChatCompletionFunctionDefinition>>,
    pub function_call: Option<Option<Json>>,
    pub response_format: Option<Option<ChatCompletionResponseFormat>>,
    pub credentials: Option<Option<Credentials>>,
}

/// The value of an optional field: what was set, else nothing.
pub open spec fn set_or_none<A>(field: Option<Option<A>>) -> Option<A> {
    match field {
        Some(value) => value,
        None => None,
    }
}

impl AnthropicChatCompletionBuilder {
    /// Whether no field has been set.
    pub open spec fn is_empty(self) -> bool {
        &&& self.model is None
        &&& self.system is None
        &&& self.messages is None
        &&& self.n is None
        &&& self.stream is None
        &&& self.stop is None
        &&& self.seed is None
        &&& self.max_tokens is None
        &&& self.user is None
        &&& self.functions is None
        &&& self.function_call is None
        &&& self.response_format is None
        &&& self.credentials is None
    }

    /// The name of the first field without a default that was not set.
    pub open spec fn missing_field(self) -> Option<Seq<char>> {
        if self.model is None {
            Some("model"@)
        } else if self.system is None {
            Some("system"@)
        } else if self.messages is None {
            Some("messages"@)
        } else {
            None
        }
    }

    /// A builder with no field set.
    pub fn create_empty() -> (r: AnthropicChatCompletionBuilder)
        ensures
            r.is_empty(),
    {
        AnthropicChatCompletionBuilder {
            model: None,
            system: None,
            messages: None,
            n: None,
            stream: None,
            stop: None,
            seed: None,
            max_tokens: None,
            user: None,
            functions: None,
            function_call: None,
            response_format: None,
            credentials: None,
        }
    }

    /// Sets the model.
    pub fn model(self, value: String) -> (r: AnthropicChatCompletionBuilder)
        ensures
            r == (AnthropicChatCompletionBuilder { model: Some(value), ..self }),
    {
        let mut b = self;
        b.model = Some(value);
        b
    }

    /// Sets the system prompt.
    pub fn system(self, value: String) -> (r: AnthropicChatCompletionBuilder)
        ensures
            r == (AnthropicChatCompletionBuilder { system: Some(Some(value)), ..self }),
    {
        let mut b = self;
        b.system = Some(Some(value));
        b
    }

    /// Sets the conversation.
    pub fn messages(self, value: Vec<ChatCompletionMessage>) -> (r: AnthropicChatCompletionBuilder)
        ensures
            r == (AnthropicChatCompletionBuilder { messages: Some(value), ..self }),
    {
        let mut b = self;
        b.messages = Some(value);
        b
    }

    /// Sets the number of completions.
    pub fn n(self, value: u8) -> (r: AnthropicChatCompletionBuilder)
        ensures
            r == (AnthropicChatCompletionBuilder { n: Some(Some(value)), ..self }),
    {
        let mut b = self;
        b.n = Some(Some(value));
        b
    }

    /// Sets whether the answer is streamed.
    pub fn stream(self, value: bool) -> (r: AnthropicChatCompletionBuilder)
        ensures
            r == (AnthropicChatCompletionBuilder { stream: Some(Some(value)), ..self }),
    {
        let mut b = self;
        b.stream = Some(Some(value));
        b
    }

    /// Sets the stop sequences. Their number is not checked.
    pub fn stop(self, value: Vec<String>) -> (r: AnthropicChatCompletionBuilder)
        ensures
            r == (AnthropicChatCompletionBuilder { stop: Some(value), ..self }),
    {
        let mut b = self;
        b.stop = Some(value);
        b
    }

    /// Sets the seed.
    pub fn seed(self, value: u64) -> (r: AnthropicChatCompletionBuilder)
        ensures
            r == (AnthropicChatCompletionBuilder { seed: Some(Some(value)), ..self }),
    {
        let mut b = self;
        b.seed = Some(Some(value));
        b
    }

    /// Sets the most tokens that the answer may have.
    pub fn max_tokens(self, value: i32) -> (r: AnthropicChatCompletionBuilder)
        ensures
            r == (AnthropicChatCompletionBuilder { max_tokens: Some(Some(value)), ..self }),
    {
        let mut b = self;
        b.max_tokens = Some(Some(value));
        b
    }

    /// Sets the identifier of the end user.
    pub fn user(self, value: String) -> (r: AnthropicChatCompletionBuilder)
        ensures
            r == (AnthropicChatCompletionBuilder { user: Some(value), ..self }),
    {
        let mut b = self;
        b.user = Some(value);
        b
    }

    /// Sets the functions that the model may call.
    pub fn functions(self, value: Vec<ChatCompletionFunctionDefinition>) -> (r:
        AnthropicChatCompletionBuilder)
        ensures
            r == (AnthropicChatCompletionBuilder { functions: Some(value), ..self }),
    {
        let mut b = self;
        b.functions = Some(value);
        b
    }

    /// Sets the function that the model is to call.
    pub fn function_call(self, value: Json) -> (r: AnthropicChatCompletionBuilder)
        ensures
            r == (AnthropicChatCompletionBuilder { function_call: Some(Some(value)), ..self }),
    {
        let mut b = self;
        b.function_call = Some(Some(value));
        b
    }

    /// Sets the kind of output asked for.
    pub fn response_format(self, value: ChatCompletionResponseFormat) -> (r:
        AnthropicChatCompletionBuilder)
        ensures
            r == (AnthropicChatCompletionBuilder { response_format: Some(Some(value)), ..self }),
    {
        let mut b = self;
        b.response_format = Some(Some(value));
        b
    }

    /// Sets the credentials of this call.
    pub fn credentials(self, value: Credentials) -> (r: AnthropicChatCompletionBuilder)
        ensures
            r == (AnthropicChatCompletionBuilder { credentials: Some(Some(value)), ..self }),
    {
        let mut b = self;
        b.credentials = Some(Some(value));
        b
    }

    /// The request that was set up. Model, system prompt and conversation
    /// must have been set; the first of them that was not is the error. A
    /// field that was not set is empty in the request.
    pub fn build(self) -> (r: Result<
        AnthropicChatCompletionRequest,
        AnthropicChatCompletionBuilderError,
    >)
        ensures
            match r {
                Ok(request) => {
                    &&& self.missing_field() is None
                    &&& request.model == self.model.unwrap()
                    &&& request.system == self.system.unwrap()
                    &&& request.messages == self.messages.unwrap()
                    &&& request.n == set_or_none(self.n)
                    &&& request.stream == set_or_none(self.stream)
                    &&& match self.stop {
                        Some(stop) => request.stop == stop,
                        None => request.stop@.len() == 0,
                    }
                    &&& request.seed == set_or_none(self.seed)
                    &&& request.max_tokens == set_or_none(self.max_tokens)
                    &&& match self.user {
                        Some(user) => request.user == user,
                        None => request.user@.len() == 0,
                    }
                    &&& match self.functions {
                        Some(functions) => request.functions == functions,
                        None => request.functions@.len() == 0,
                    }
                    &&& request.function_call == set_or_none(self.function_call)
                    &&& request.response_format == set_or_none(self.response_format)
                    &&& request.credentials == set_or_none(self.credentials)
                },
                Err(AnthropicChatCompletionBuilderError::UninitializedField(field)) => Some(field@)
                    == self.missing_field(),
                Err(AnthropicChatCompletionBuilderError::ValidationError(_)) => false,
            },
    {
        let model = match self.model {
            Some(value) => value,
            None => {
                return Err(AnthropicChatCompletionBuilderError::UninitializedField("model"));
            },
        };
        let system = match self.system {
            Some(value) => value,
            None => {
                return Err(AnthropicChatCompletionBuilderError::UninitializedField("system"));
            },
        };
        let messages = match self.messages {
            Some(value) => value,
            None => {
                return Err(AnthropicChatCompletionBuilderError::UninitializedField("messages"));
            },
        };
        Ok(
            AnthropicChatCompletionRequest {
                model,
                system,
                messages,
                n: match self.n {
                    Some(value) => value,
                    None => None,
                },
                stream: match self.stream {
                    Some(value) => value,
                    None => None,
                },
                stop: match self.stop {
                    Some(value) => value,
                    None => Vec::new(),
                },
                seed: match self.seed {
                    Some(value) => value,
                    None => None,
                },
                max_tokens: match self.max_tokens {
                    Some(value) => value,
                    None => None,
                },
                user: match self.user {
                    Some(value) => value,
                    None => String::new(),
                },
                functions: match self.functions {
                    Some(value) => value,
                    None => Vec::new(),
                },
                function_call: match self.function_call {
                    Some(value) => value,
                    None => None,
                },
                response_format: match self.response_format {
                    Some(value) => value,
                    None => None,
                },
                credentials: match self.credentials {
                    Some(value) => value,
                    None => None,
                },
            },
        )
    }
}

impl<C> AnthropicChatCompletionGeneric<C> {
    /// A builder for a request with the model, the system prompt and the
    /// conversation set, and at most 4096 tokens in the answer.
    pub fn builder(model: &str, system: &str, messages: Vec<ChatCompletionMessage>) -> (r:
        AnthropicChatCompletionBuilder)
        ensures
            r.model is Some && r.model.unwrap()@ == model@,
            r.system is Some && r.system.unwrap() is Some && r.system.unwrap().unwrap()@
                == system@,
            r.messages == Some(messages),
            r.max_tokens == Some(Some(4096i32)),
            r.n is None,
            r.stream is None,
            r.stop is None,
            r.seed is None,
            r.user is None,
            r.functions is None,
            r.function_call is None,
            r.response_format is None,
            r.credentials is None,
    {
        AnthropicChatCompletionBuilder::create_empty().model(String::from_str(model)).system(
            String::from_str(system),
        ).messages(messages).max_tokens(4096)
    }
}

} // verus!
