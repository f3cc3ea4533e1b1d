//! Where the API key is kept: an item of the desktop's Secret Service.
//! Talking to the service is the application's part; this module fixes
//! what the item looks like and how its content and failures are read.

use vstd::prelude::*;
use vstd::utf8::{decode_utf8, valid_utf8};

use crate::error::{ErrorView, VerbaError};
use crate::text::{concat2, is_blank, is_blank_str};

verus! {

/// The label of the stored item.
pub const LABEL: &'static str = "Verba API Key";

/// The content type of the stored secret.
pub const CONTENT_TYPE: &'static str = "text/plain";

pub const APPLICATION_ATTR: &'static str = "application";

pub const APPLICATION_VALUE: &'static str = "verba";

pub const KIND_ATTR: &'static str = "kind";

pub const KIND_VALUE: &'static str = "api-key";

/// The API key's store in the Secret Service.
#[derive(Clone, Copy, Debug, Default)]
pub struct SecretServiceStore;

impl SecretServiceStore {
    pub fn new() -> Self {
        Self
    }
}

/// The attributes under which the key is stored and searched: the
/// application and the kind of secret.
pub fn attributes() -> (r: Vec<(&'static str, &'static str)>)
    ensures
        r@.len() == 2,
        r@[0].0@ == APPLICATION_ATTR@ && r@[0].1@ == APPLICATION_VALUE@,
        r@[1].0@ == KIND_ATTR@ && r@[1].1@ == KIND_VALUE@,
{
    vec![(APPLICATION_ATTR, APPLICATION_VALUE), (KIND_ATTR, KIND_VALUE)]
}

/// The message for a failure of the Secret Service, given the failure's
/// text.
pub fn unavailable_message(detail: &str) -> (r: String)
    ensures
        r@ == "Secret Service is unavailable or rejected the request: "@ + detail@,
{
    concat2("Secret Service is unavailable or rejected the request: ", detail)
}

/// Saving a blank key removes the stored one instead.
pub fn clears_key(value: &str) -> (r: bool)
    ensures
        r == is_blank(value@),
{
    is_blank_str(value)
}

/// Calls `std::str::from_utf8` and copies the text out. Trusted: that it
/// succeeds exactly on valid UTF-8 and then yields the decoded characters,
/// as its documentation states.
#[verifier::external_body]
fn utf8_text(bytes: &[u8]) -> (r: Option<String>)
    ensures
        r is Some <==> valid_utf8(bytes@),
        r matches Some(s) ==> s@ == decode_utf8(bytes@),
{
    match std::str::from_utf8(bytes) {
        Ok(s) => Some(s.to_string()),
        Err(_) => None,
    }
}

/// The API key held by a stored secret, which must be UTF-8 text.
pub fn api_key_from_secret(secret: &[u8]) -> (r: Result<String, VerbaError>)
    ensures
        if valid_utf8(secret@) {
            r matches Ok(k) && k@ == decode_utf8(secret@)
        } else {
            r matches Err(e) && e@ == ErrorView::Secret("stored API key is not valid UTF-8"@)
        },
{
    match utf8_text(secret) {
        Some(s) => Ok(s),
        None => Err(VerbaError::Secret("stored API key is not valid UTF-8".to_string())),
    }
}

} // verus!
