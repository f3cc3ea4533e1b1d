//! Classification of provider failures.

use vstd::prelude::*;
use vstd::string::*;

use crate::text::{
    lemma_plain_text_is_trimmed, lemma_trim_ends, chars_of, concat2, decimal, decimal_string, is_blank, is_blank_str, string_from_chars, trim,
    trim_bounds,
};

verus! {

/// What went wrong with a translation request.
#[derive(Clone, Copy, Debug, PartialEq, Eq, Structural)]
pub enum LlmErrorKind {
    UnauthorizedOrForbidden,
    NotFound,
    RateLimited,
    ProviderOverloaded,
    ServerError,
    Timeout,
    Network,
    InvalidResponse,
    MissingConfiguration,
}

/// A failed translation request: its kind and a message of bounded size.
#[derive(Debug)]
pub struct LlmError {
    kind: LlmErrorKind,
    message: String,
}

/// The most characters of provider text kept in a message.
pub const MAX_BODY_CHARS: usize = 512;

/// Provider text as kept in a message: trimmed, cut to 512 characters,
/// with `...` appended when it was cut.
pub open spec fn truncated_body(body: Seq<char>) -> Seq<char> {
    let t = trim(body);
    if t.len() > MAX_BODY_CHARS {
        t.take(MAX_BODY_CHARS as int) + "..."@
    } else {
        t
    }
}

/// The kind of error that an HTTP status stands for.
pub open spec fn status_kind(status: u16) -> LlmErrorKind {
    if status == 401 || status == 403 {
        LlmErrorKind::UnauthorizedOrForbidden
    } else if status == 404 {
        LlmErrorKind::NotFound
    } else if status == 429 {
        LlmErrorKind::RateLimited
    } else if status == 529 {
        LlmErrorKind::ProviderOverloaded
    } else if 500 <= status <= 599 {
        LlmErrorKind::ServerError
    } else {
        LlmErrorKind::InvalidResponse
    }
}

/// The message for an HTTP status and the body that came with it.
pub open spec fn status_message(status: u16, body: Seq<char>) -> Seq<char> {
    if is_blank(body) {
        "provider returned HTTP "@ + decimal(status as nat)
    } else {
        "provider returned HTTP "@ + decimal(status as nat) + ": "@ + truncated_body(body)
    }
}

impl LlmError {
    pub closed spec fn spec_kind(&self) -> LlmErrorKind {
        self.kind
    }

    pub closed spec fn spec_message(&self) -> Seq<char> {
        self.message@
    }

    /// An error of the given kind; the message is kept as
    /// [`truncated_body`] makes it.
    pub fn new(kind: LlmErrorKind, message: &str) -> (e: Self)
        ensures
            e.spec_kind() == kind,
            e.spec_message() == truncated_body(message@),
    {
        Self { kind, message: truncate_provider_body(message) }
    }

    /// The error for an unsuccessful HTTP status: 401 and 403 are
    /// unauthorized, 404 not found, 429 rate limited, 529 overloaded, other
    /// 5xx server errors, anything else an invalid response.
    pub fn from_status(status: u16, body: &str) -> (e: Self)
        ensures
            e.spec_kind() == status_kind(status),
            e.spec_message() == status_message(status, body@),
    {
        let kind = if status == 401 || status == 403 {
            LlmErrorKind::UnauthorizedOrForbidden
        } else if status == 404 {
            LlmErrorKind::NotFound
        } else if status == 429 {
            LlmErrorKind::RateLimited
        } else if status == 529 {
            LlmErrorKind::ProviderOverloaded
        } else if 500 <= status && status <= 599 {
            LlmErrorKind::ServerError
        } else {
            LlmErrorKind::InvalidResponse
        };
        let head = concat2("provider returned HTTP ", decimal_string(status as u128).as_str());
        let message = if is_blank_str(body) {
            head
        } else {
            let tail = truncate_provider_body(body);
            let mut m = head;
            m.append(": ");
            m.append(tail.as_str());
            m
        };
        Self { kind, message }
    }

    pub fn kind(&self) -> (k: LlmErrorKind)
        ensures
            k == self.spec_kind(),
    {
        self.kind
    }

    pub fn message(&self) -> (m: &str)
        ensures
            m@ == self.spec_message(),
    {
        self.message.as_str()
    }
}

/// Provider text cut down for a message; see [`truncated_body`].
pub fn truncate_provider_body(body: &str) -> (r: String)
    ensures
        r@ == truncated_body(body@),
{
    let v = chars_of(body);
    let (a, b) = trim_bounds(&v);
    if b - a > MAX_BODY_CHARS {
        let mut r = string_from_chars(&v, a, a + MAX_BODY_CHARS);
        r.append("...");
        proof {
            assert(v@.subrange(a as int, a + MAX_BODY_CHARS) == v@.subrange(a as int, b as int).take(
                MAX_BODY_CHARS as int,
            ));
        }
        r
    } else {
        string_from_chars(&v, a, b)
    }
}

/// Provider text in a message never exceeds 512 characters plus the
/// three-dot marker, and short text is only trimmed.
pub proof fn lemma_truncated_body_bounded(body: Seq<char>)
    ensures
        truncated_body(body).len() <= MAX_BODY_CHARS + 3,
        trim(body).len() <= MAX_BODY_CHARS ==> truncated_body(body) == trim(body),
{
    reveal_strlit("...");
}

/// How HTTP statuses are classified: 401 and 403 are unauthorized, 404 not
/// found, 429 rate limited, 529 overloaded, every other status from 500 to
/// 599 a server error, and all remaining statuses an invalid response.
pub proof fn lemma_status_classes(status: u16)
    ensures
        (status == 401 || status == 403) ==> status_kind(status) == LlmErrorKind::UnauthorizedOrForbidden,
        status == 404 ==> status_kind(status) == LlmErrorKind::NotFound,
        status == 429 ==> status_kind(status) == LlmErrorKind::RateLimited,
        status == 529 ==> status_kind(status) == LlmErrorKind::ProviderOverloaded,
        500 <= status <= 599 && status != 529 ==> status_kind(status) == LlmErrorKind::ServerError,
        (status < 500 || status > 599) && status != 401 && status != 403 && status != 404
            && status != 429 ==> status_kind(status) == LlmErrorKind::InvalidResponse,
{
}

/// Cutting provider text down is done once for all: text already cut
/// comes back unchanged.
pub proof fn lemma_truncated_body_idempotent(body: Seq<char>)
    ensures
        truncated_body(truncated_body(body)) == truncated_body(body),
{
    let t = trim(body);
    let r = truncated_body(body);
    reveal_strlit("...");
    lemma_trim_ends(body);
    if t.len() > MAX_BODY_CHARS {
        assert(r[0] == t[0]);
        assert(r.last() == '.');
        lemma_plain_text_is_trimmed(r);
        assert(r.take(MAX_BODY_CHARS as int) == t.take(MAX_BODY_CHARS as int));
    } else if t.len() > 0 {
        lemma_plain_text_is_trimmed(t);
    } else {
        assert(trim(t) == t);
    }
}

} // verus!
