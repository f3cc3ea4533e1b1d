//! Talking to an OpenAI-compatible chat completions API: the request and
//! response shapes, the prompt, the endpoint and the error classification.

pub mod client;
pub mod errors;
pub mod prompt;
pub mod schema;
