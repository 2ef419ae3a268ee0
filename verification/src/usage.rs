//! Token accounting as the providers report it.

use crate::envelope::{read_unsigned, required_unsigned, FromJson};
use crate::json::{Json, JsonValue};
use vstd::prelude::*;

verus! {

/// Token counts of the first provider.
#[derive(Clone, Copy, Debug, PartialEq, Eq)]
pub struct Usage {
    pub prompt_tokens: u32,
    pub completion_tokens: u32,
    pub total_tokens: u32,
}

/// Token counts of the second provider.
#[derive(Clone, Copy, Debug, PartialEq, Eq)]
pub struct AnthropicUsage {
    pub input_tokens: u64,
    pub cache_creation_input_tokens: u64,
    pub cache_read_input_tokens: u64,
    pub output_tokens: u64,
}

impl View for Usage {
    type V = Usage;

    open spec fn view(&self) -> Usage {
        *self
    }
}

impl View for AnthropicUsage {
    type V = AnthropicUsage;

    open spec fn view(&self) -> AnthropicUsage {
        *self
    }
}

impl Usage {
    /// Whether the total is the sum of the two parts.
    pub fn is_consistent(&self) -> (r: bool)
        ensures
            r == (self.prompt_tokens + self.completion_tokens == self.total_tokens),
    {
        let sum: u64 = self.prompt_tokens as u64 + self.completion_tokens as u64;
        sum == self.total_tokens as u64
    }
}

impl FromJson for Usage {
    /// An object with three counts, each an unsigned integer of 32 bits.
    open spec fn shape(v: JsonValue) -> Option<Usage> {
        match (
            required_unsigned(v, "prompt_tokens"@, u32::MAX as int),
            required_unsigned(v, "completion_tokens"@, u32::MAX as int),
            required_unsigned(v, "total_tokens"@, u32::MAX as int),
        ) {
            (Some(prompt), Some(completion), Some(total)) => Some(
                Usage {
                    prompt_tokens: prompt as u32,
                    completion_tokens: completion as u32,
                    total_tokens: total as u32,
                },
            ),
            _ => None,
        }
    }

    fn from_json(json: &Json) -> (r: Option<Usage>) {
        let prompt = match read_unsigned(json, "prompt_tokens", u32::MAX as u64) {
            Some(n) => n,
            None => { return None; },
        };
        let completion = match read_unsigned(json, "completion_tokens", u32::MAX as u64) {
            Some(n) => n,
            None => { return None; },
        };
        let total = match read_unsigned(json, "total_tokens", u32::MAX as u64) {
            Some(n) => n,
            None => { return None; },
        };
        Some(
            Usage {
                prompt_tokens: prompt as u32,
                completion_tokens: completion as u32,
                total_tokens: total as u32,
            },
        )
    }
}

impl FromJson for AnthropicUsage {
    /// An object with four counts, each an unsigned integer of 64 bits.
    open spec fn shape(v: JsonValue) -> Option<AnthropicUsage> {
        match (
            required_unsigned(v, "input_tokens"@, u64::MAX as int),
            required_unsigned(v, "cache_creation_input_tokens"@, u64::MAX as int),
            required_unsigned(v, "cache_read_input_tokens"@, u64::MAX as int),
            required_unsigned(v, "output_tokens"@, u64::MAX as int),
        ) {
            (Some(input), Some(creation), Some(read), Some(output)) => Some(
                AnthropicUsage {
                    input_tokens: input as u64,
                    cache_creation_input_tokens: creation as u64,
                    cache_read_input_tokens: read as u64,
                    output_tokens: output as u64,
                },
            ),
            _ => None,
        }
    }

    fn from_json(json: &Json) -> (r: Option<AnthropicUsage>) {
        let input = match read_unsigned(json, "input_tokens", u64::MAX) {
            Some(n) => n,
            None => { return None; },
        };
        let creation = match read_unsigned(json, "cache_creation_input_tokens", u64::MAX) {
            Some(n) => n,
            None => { return None; },
        };
        let read = match read_unsigned(json, "cache_read_input_tokens", u64::MAX) {
            Some(n) => n,
            None => { return None; },
        };
        let output = match read_unsigned(json, "output_tokens", u64::MAX) {
            Some(n) => n,
            None => { return None; },
        };
        Some(
            AnthropicUsage {
                input_tokens: input,
                cache_creation_input_tokens: creation,
                cache_read_input_tokens: read,
                output_tokens: output,
            },
        )
    }
}

} // verus!
