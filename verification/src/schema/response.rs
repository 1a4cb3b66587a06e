//! The reply of the service, as it is read from the wire.

use vstd::prelude::*;

use crate::schema::message::Message;

verus! {

/// The reply to one request: the completions in the order of the wire, and
/// the accounting of the tokens used.
#[derive(Clone, Debug)]
pub struct ChatCompletionsResponse {
    pub choices: Vec<ChatCompletion>,
    pub created: u64,
    pub id: String,
    pub model: String,
    pub object: String,
    pub system_fingerprint: String,
    pub usage: Usage,
}

/// One generated message and why generation stopped; `logprobs` is not
/// inspected.
#[derive(Clone, Debug)]
pub struct ChatCompletion {
    pub finish_reason: String,
    pub index: u64,
    pub logprobs: Option<serde_json::Value>,
    pub message: Message,
}

/// Token accounting of one reply.
#[derive(Clone, Copy, Debug)]
pub struct Usage {
    pub completion_tokens: u64,
    pub prompt_cache_hit_tokens: u64,
    pub prompt_cache_miss_tokens: u64,
    pub prompt_tokens: u64,
    pub total_tokens: u64,
}

} // verus!
