//! The translation client's decisions: where requests go, what they hold,
//! and how answers and failures are read. Sending the request is the
//! application's part.

use vstd::prelude::*;
use vstd::string::*;

use crate::config::schema::{Preset, ProviderConfig, ProviderView};
use crate::config::validation::CHAT_COMPLETIONS_PATH;
use crate::llm::errors::{status_kind, status_message, truncated_body, LlmError, LlmErrorKind};
use crate::llm::prompt::{build_system_prompt, system_prompt};
use crate::llm::schema::{ChatCompletionRequest, ChatCompletionResponse, ChatMessage};
use crate::text::{chars_of, concat2, is_blank, is_blank_str, trim_end_slashes, without_trailing_slashes};
use crate::urls::{parse_url, parsed_url, path_fits, path_fits_parts, replace_url_path, url_with_path};

verus! {

/// A client for one provider: its settings and its endpoint.
#[derive(Debug)]
pub struct LlmClient {
    provider: ProviderConfig,
    endpoint: String,
}

/// The endpoint for a base URL: the URL with `/v1/chat/completions`
/// appended to its path (trailing slashes removed first), or the reason
/// there is none. A URL whose new serialization could outgrow the `url`
/// crate's `u32` offsets (see [`path_fits`]) is refused.
pub open spec fn endpoint_for(base_url: Seq<char>) -> Result<Seq<char>, (LlmErrorKind, Seq<char>)> {
    match parsed_url(base_url) {
        Err(m) => Err((LlmErrorKind::MissingConfiguration, truncated_body(m))),
        Ok((scheme, path, through_path, size)) => {
            let new_path = trim_end_slashes(path) + CHAT_COMPLETIONS_PATH@;
            if !path_fits(base_url, new_path) {
                Err((LlmErrorKind::MissingConfiguration, truncated_body("base URL is too long"@)))
            } else {
                Ok(url_with_path(base_url, new_path))
            }
        },
    }
}

/// The error's kind and message.
pub open spec fn error_parts(e: LlmError) -> (LlmErrorKind, Seq<char>) {
    (e.spec_kind(), e.spec_message())
}

/// The path of the endpoint under a base URL whose path is `path`: that
/// path without trailing slashes, then `/v1/chat/completions`.
pub fn endpoint_path(path: &str) -> (r: String)
    ensures
        r@ == trim_end_slashes(path@) + CHAT_COMPLETIONS_PATH@,
{
    concat2(without_trailing_slashes(path).as_str(), CHAT_COMPLETIONS_PATH)
}

/// The endpoint for a base URL; see [`endpoint_for`].
pub fn build_endpoint(base_url: &str) -> (r: Result<String, LlmError>)
    ensures
        match endpoint_for(base_url@) {
            Ok(u) => r matches Ok(x) && x@ == u,
            Err(p) => r matches Err(e) && error_parts(e) == p,
        },
{
    let parts = match parse_url(base_url) {
        Ok(p) => p,
        Err(m) => {
            return Err(LlmError::new(LlmErrorKind::MissingConfiguration, m.as_str()));
        },
    };
    let path = endpoint_path(parts.path.as_str());
    if !path_fits_parts(&parts, chars_of(path.as_str()).len()) {
        return Err(LlmError::new(LlmErrorKind::MissingConfiguration, "base URL is too long"));
    }
    Ok(replace_url_path(base_url, path.as_str()))
}

/// The answer's text: the content of the first choice, which must be
/// present and not empty.
pub open spec fn completion_outcome(response: ChatCompletionResponse) -> Result<Seq<char>, (LlmErrorKind, Seq<char>)> {
    if response.choices.len() == 0 {
        Err((LlmErrorKind::InvalidResponse, "response did not include choices[0].message.content"@))
    } else {
        match response.choices[0].message.content {
            None => Err((LlmErrorKind::InvalidResponse, "response did not include choices[0].message.content"@)),
            Some(c) => if c@.len() == 0 {
                Err((LlmErrorKind::InvalidResponse, "response message content was empty"@))
            } else {
                Ok(c@)
            },
        }
    }
}

/// The text of a parsed answer; see [`completion_outcome`].
pub fn completion_content(response: &ChatCompletionResponse) -> (r: Result<String, LlmError>)
    ensures
        match completion_outcome(*response) {
            Ok(t) => r matches Ok(x) && x@ == t,
            Err(p) => r matches Err(e) && e.spec_kind() == p.0 && e.spec_message() == truncated_body(p.1),
        },
{
    if response.choices.len() == 0 {
        return Err(
            LlmError::new(
                LlmErrorKind::InvalidResponse,
                "response did not include choices[0].message.content",
            ),
        );
    }
    match &response.choices[0].message.content {
        None => Err(
            LlmError::new(
                LlmErrorKind::InvalidResponse,
                "response did not include choices[0].message.content",
            ),
        ),
        Some(c) => {
            if chars_of(c.as_str()).len() == 0 {
                Err(LlmError::new(LlmErrorKind::InvalidResponse, "response message content was empty"))
            } else {
                Ok(c.clone())
            }
        },
    }
}

/// The error for an answer that came back; successful statuses
/// (`200..=299`) give none.
pub fn check_status(status: u16, body: &str) -> (r: Result<(), LlmError>)
    ensures
        if 200 <= status <= 299 {
            r is Ok
        } else {
            r matches Err(e) && e.spec_kind() == status_kind(status) && e.spec_message()
                == status_message(status, body@)
        },
{
    if 200 <= status && status <= 299 {
        Ok(())
    } else {
        Err(LlmError::from_status(status, body))
    }
}

/// The error for a request that got no answer: a timeout, an error status
/// seen by the transport (read with an empty body), or a network error
/// with the transport's message.
pub fn transport_failure(timed_out: bool, status: Option<u16>, detail: &str) -> (e: LlmError)
    ensures
        timed_out ==> e.spec_kind() == LlmErrorKind::Timeout && e.spec_message() == truncated_body(
            "request timed out"@,
        ),
        !timed_out && status is Some ==> e.spec_kind() == status_kind(status->0) && e.spec_message()
            == status_message(status->0, ""@),
        !timed_out && status is None ==> e.spec_kind() == LlmErrorKind::Network && e.spec_message()
            == truncated_body(detail@),
{
    if timed_out {
        return LlmError::new(LlmErrorKind::Timeout, "request timed out");
    }
    match status {
        Some(s) => LlmError::from_status(s, ""),
        None => LlmError::new(LlmErrorKind::Network, detail),
    }
}

impl LlmClient {
    pub closed spec fn spec_provider(&self) -> ProviderView {
        self.provider@
    }

    pub closed spec fn spec_endpoint(&self) -> Seq<char> {
        self.endpoint@
    }

    /// A client for the provider; it needs a model and a base URL that
    /// yields an endpoint.
    pub fn new(provider: ProviderConfig) -> (r: Result<Self, LlmError>)
        ensures
            if is_blank(provider.model_name@) {
                r matches Err(e) && error_parts(e) == (
                LlmErrorKind::MissingConfiguration,
                truncated_body("model name is not configured"@),
                )
            } else {
                match endpoint_for(provider.base_url@) {
                    Ok(u) => r matches Ok(c) && c.spec_provider() == provider@ && c.spec_endpoint()
                        == u,
                    Err(p) => r matches Err(e) && error_parts(e) == p,
                }
            },
    {
        if is_blank_str(provider.model_name.as_str()) {
            return Err(
                LlmError::new(LlmErrorKind::MissingConfiguration, "model name is not configured"),
            );
        }
        let endpoint = build_endpoint(provider.base_url.as_str())?;
        Ok(Self { provider, endpoint })
    }

    /// Where requests go.
    pub fn endpoint(&self) -> (r: &str)
        ensures
            r@ == self.spec_endpoint(),
    {
        self.endpoint.as_str()
    }

    pub fn provider(&self) -> (r: &ProviderConfig)
        ensures
            r@ == self.spec_provider(),
    {
        &self.provider
    }

    /// The request that translates `input` into `language` in the style of
    /// `preset`: the configured model, temperature and token limit, the
    /// system prompt and the input as the user's message. A blank API key
    /// is refused.
    pub fn translation_request(
        &self,
        api_key: &str,
        language: &str,
        preset: &Preset,
        input: &str,
    ) -> (r: Result<ChatCompletionRequest, LlmError>)
        ensures
            if is_blank(api_key@) {
                r matches Err(e) && error_parts(e) == (
                LlmErrorKind::MissingConfiguration,
                truncated_body("API key is not configured"@),
                )
            } else {
                r matches Ok(q) && {
                &&& q.model@ == self.spec_provider().model_name
                &&& q.temperature_bits == self.spec_provider().temperature_bits
                &&& q.max_tokens == self.spec_provider().max_tokens
                &&& q.messages@.len() == 2
                &&& q.messages@[0].role@ == "system"@
                &&& q.messages@[0].content@ == system_prompt(language@, preset.instruction@)
                &&& q.messages@[1].role@ == "user"@
                &&& q.messages@[1].content@ == input@
                }
            },
    {
        if is_blank_str(api_key) {
            return Err(LlmError::new(LlmErrorKind::MissingConfiguration, "API key is not configured"));
        }
        let system = ChatMessage {
            role: "system".to_string(),
            content: build_system_prompt(language, preset),
        };
        let user = ChatMessage { role: "user".to_string(), content: input.to_string() };
        Ok(
            ChatCompletionRequest {
                model: self.provider.model_name.clone(),
                temperature_bits: self.provider.temperature_bits,
                max_tokens: self.provider.max_tokens,
                messages: vec![system, user],
            },
        )
    }
}

} // verus!
