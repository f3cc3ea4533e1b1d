//! What the configuration and the LLM client read of a URL, parsed by the
//! `url` crate.

use vstd::prelude::*;

verus! {

/// The parts of a parsed absolute URL that the crate reads: its scheme,
/// its path, its serialization up to the end of the path (that is,
/// without query and fragment), and the length in bytes of its whole
/// serialization.
pub struct UrlParts {
    pub scheme: String,
    pub path: String,
    pub through_path: String,
    pub serialized_len: usize,
}

/// What `url::Url::parse` makes of a text: on success the scheme, the
/// path, the serialization up to the end of the path and the length in
/// bytes of the whole serialization; on failure the text of the parse
/// error.
pub uninterp spec fn parsed_url(text: Seq<char>) -> Result<(Seq<char>, Seq<char>, Seq<char>, nat), Seq<char>>;

/// The serialization of the URL parsed from `text` after
/// `url::Url::set_path(path)`.
pub uninterp spec fn url_with_path(text: Seq<char>, path: Seq<char>) -> Seq<char>;

/// The most bytes that one character of a path can take once
/// `url::Url::set_path` has serialized it: four UTF-8 bytes, each
/// percent-encoded as three.
pub const MAX_PATH_CHAR_BYTES: u64 = 12;

/// Room for the few bytes that `set_path` may add on its own (a leading
/// `/`, a `/` after a Windows drive letter, a `/.` before a path that
/// starts with `//`).
pub const PATH_SLACK_BYTES: u64 = 16;

/// Whether setting `path` on the URL parsed from `text` keeps the
/// serialization within the `u32` offsets of the `url` crate, which
/// `set_path` unwraps: the old serialization's length (an upper bound for
/// what stays of it) plus the most the new path can take.
pub open spec fn path_fits(text: Seq<char>, path: Seq<char>) -> bool {
    match parsed_url(text) {
        Ok((_, _, _, n)) => n + MAX_PATH_CHAR_BYTES * path.len() + PATH_SLACK_BYTES <= u32::MAX,
        Err(_) => false,
    }
}

/// [`path_fits`], from the parts of the parsed URL and the new path's
/// length in characters.
pub(crate) fn path_fits_parts(parts: &UrlParts, path_chars: usize) -> (r: bool)
    ensures
        r == (parts.serialized_len + MAX_PATH_CHAR_BYTES * path_chars + PATH_SLACK_BYTES
            <= u32::MAX),
{
    let n: u128 = parts.serialized_len as u128;
    let k: u128 = path_chars as u128;
    n + 12 * k + 16 <= 0xFFFF_FFFFu128
}

/// Calls `url::Url::parse` and reads `scheme()`, `path()` and the slice
/// `[..Position::AfterPath]` of the result, or the parse error's text.
/// Trusted: that the result is [`parsed_url`] of the text, which depends on
/// the text alone.
#[verifier::external_body]
pub(crate) fn parse_url(text: &str) -> (r: Result<UrlParts, String>)
    ensures
        match r {
            Ok(p) => parsed_url(text@) == Ok::<_, Seq<char>>(
                (p.scheme@, p.path@, p.through_path@, p.serialized_len as nat),
            ),
            Err(m) => parsed_url(text@) == Err::<(Seq<char>, Seq<char>, Seq<char>, nat), _>(m@),
        },
{
    match url::Url::parse(text) {
        Ok(u) => Ok(
            UrlParts {
                scheme: u.scheme().to_string(),
                path: u.path().to_string(),
                through_path: u[..url::Position::AfterPath].to_string(),
                serialized_len: u.as_str().len(),
            },
        ),
        Err(e) => Err(e.to_string()),
    }
}

/// Parses `text` with `url::Url::parse`, calls `set_path(path)` on the URL
/// and returns its serialization. Trusted: that the result is
/// [`url_with_path`] of the two texts. `requires` keeps the input to texts
/// that parse and to paths for which the crate's `u32` offsets cannot
/// overflow (see [`path_fits`]).
#[verifier::external_body]
pub(crate) fn replace_url_path(text: &str, path: &str) -> (r: String)
    requires
        path_fits(text@, path@),
    ensures
        r@ == url_with_path(text@, path@),
{
    let mut u = url::Url::parse(text).unwrap();
    u.set_path(path);
    u.to_string()
}

} // verus!
