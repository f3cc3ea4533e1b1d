//! The request and response bodies of the chat completions API, as plain
//! values; the application (de)serializes them as JSON.

use vstd::prelude::*;

verus! {

/// One message of a chat.
#[derive(Debug, PartialEq, Eq)]
pub struct ChatMessage {
    pub role: String,
    pub content: String,
}

impl Clone for ChatMessage {
    fn clone(&self) -> (r: Self)
        ensures
            r == *self,
    {
        ChatMessage { role: self.role.clone(), content: self.content.clone() }
    }
}

/// A chat completion request. The temperature is `f32::to_bits` of the
/// value sent.
#[derive(Debug, PartialEq, Eq)]
pub struct ChatCompletionRequest {
    pub model: String,
    pub temperature_bits: u32,
    pub max_tokens: Option<u32>,
    pub messages: Vec<ChatMessage>,
}

/// The part of a response message that is read.
#[derive(Debug, PartialEq, Eq)]
pub struct ChatResponseMessage {
    pub content: Option<String>,
}

/// One choice of a response.
#[derive(Debug, PartialEq, Eq)]
pub struct ChatChoice {
    pub message: ChatResponseMessage,
}

/// A chat completion response.
#[derive(Debug, PartialEq, Eq)]
pub struct ChatCompletionResponse {
    pub choices: Vec<ChatChoice>,
}

} // verus!
