//! Validation of a configuration and normalization of its provider URL.

use vstd::prelude::*;

use crate::config::schema::{AppConfig, AppConfigView, Preset, PresetView, ProviderView};
use crate::error::{ErrorView, VerbaError};
use crate::text::{
    ascii_lower_seq, ascii_lowercase_chars, chars_eq, chars_eq_ignore_ascii_case, chars_of, concat3,
    eq_ignore_ascii_case, is_blank, is_blank_str, str_eq, trim, trim_end_slashes, trimmed,
    without_trailing_slashes, lemma_trim_end_char_prefix_shape, lemma_plain_text_is_trimmed,
};
use crate::urls::{parse_url, parsed_url, UrlParts};

verus! {

/// The path that the client appends to the base URL.
pub const CHAT_COMPLETIONS_PATH: &'static str = "/v1/chat/completions";

/// The bit pattern of an `f32` lies in `0.0..=2.0`: a non-negative value
/// up to `2.0` (bits `0x4000_0000`), or negative zero, which compares equal
/// to `0.0`. NaNs and all other negative values lie outside.
pub open spec fn temperature_in_range(bits: u32) -> bool {
    bits <= 0x4000_0000 || bits == 0x8000_0000
}

/// `(0.0..=2.0).contains(&f32::from_bits(bits))`.
pub fn temperature_bits_in_range(bits: u32) -> (r: bool)
    ensures
        r == temperature_in_range(bits),
{
    bits <= 0x4000_0000 || bits == 0x8000_0000
}

/// The outcome of checking the provider settings once the base URL has
/// parsed into its scheme, path and serialization through the path: the
/// normalized base URL, or the first problem found.
pub open spec fn parsed_provider_check(
    scheme: Seq<char>,
    path: Seq<char>,
    through_path: Seq<char>,
    timeout_secs: u64,
    temperature_bits: u32,
) -> Result<Seq<char>, ErrorView> {
    if scheme != "http"@ && scheme != "https"@ {
        Err(ErrorView::InvalidBaseUrl("unsupported URL scheme `"@ + scheme + "`"@))
    } else if eq_ignore_ascii_case(trim_end_slashes(path), CHAT_COMPLETIONS_PATH@) {
        Err(ErrorView::InvalidBaseUrl("base_url must not include /v1/chat/completions"@))
    } else if timeout_secs == 0 {
        Err(ErrorView::Config("provider.timeout_secs must be positive"@))
    } else if !temperature_in_range(temperature_bits) {
        Err(ErrorView::Config("provider.temperature must be between 0.0 and 2.0"@))
    } else {
        Ok(trim_end_slashes(through_path))
    }
}

/// The outcome of checking the provider settings: the normalized base URL,
/// or the first problem found.
pub open spec fn provider_check(p: ProviderView) -> Result<Seq<char>, ErrorView> {
    match parsed_url(trim(p.base_url)) {
        Err(m) => Err(ErrorView::InvalidBaseUrl(m)),
        Ok((scheme, path, through_path, _)) => parsed_provider_check(
            scheme,
            path,
            through_path,
            p.timeout_secs,
            p.temperature_bits,
        ),
    }
}

/// The key under which preset names must be unique: trimmed, ASCII
/// letters folded to lower case.
pub open spec fn name_key(name: Seq<char>) -> Seq<char> {
    ascii_lower_seq(trim(name))
}

/// The problem with the preset at index `i`, given that all presets
/// before it passed.
pub open spec fn preset_fault(ps: Seq<PresetView>, i: int) -> Option<ErrorView> {
    let p = ps[i];
    if is_blank(p.id) {
        Some(ErrorView::Config("preset id is required"@))
    } else if is_blank(p.name) {
        Some(ErrorView::Config("preset name is required"@))
    } else if exists|j: int| 0 <= j < i && #[trigger] name_key(ps[j].name) == name_key(p.name) {
        Some(ErrorView::Config("duplicate preset name `"@ + p.name + "`"@))
    } else if is_blank(p.instruction) {
        Some(ErrorView::Config("preset instruction is required"@))
    } else {
        None
    }
}

/// The first problem among the presets from index `i` on.
pub open spec fn first_preset_fault(ps: Seq<PresetView>, i: int) -> Option<ErrorView>
    decreases ps.len() - i,
{
    if i < 0 || i >= ps.len() {
        None
    } else {
        match preset_fault(ps, i) {
            Some(e) => Some(e),
            None => first_preset_fault(ps, i + 1),
        }
    }
}

/// The problem with a list of presets, if any: it must not be empty, and
/// each preset needs an id, a name unique up to ASCII case and an
/// instruction.
pub open spec fn presets_fault(ps: Seq<PresetView>) -> Option<ErrorView> {
    if ps.len() == 0 {
        Some(ErrorView::Config("at least one preset is required"@))
    } else {
        first_preset_fault(ps, 0)
    }
}

/// The configuration after validation: the provider's base URL normalized
/// when the provider settings pass, unchanged otherwise.
pub open spec fn validate_effect(c: AppConfigView) -> AppConfigView {
    match provider_check(c.provider) {
        Ok(base) => AppConfigView { provider: ProviderView { base_url: base, ..c.provider }, ..c },
        Err(_) => c,
    }
}

/// The result of validation: the provider's problem first, then the
/// presets' problem.
pub open spec fn validate_result(c: AppConfigView) -> Result<(), ErrorView> {
    match provider_check(c.provider) {
        Err(e) => Err(e),
        Ok(_) => match presets_fault(c.presets) {
            Some(e) => Err(e),
            None => Ok(()),
        },
    }
}

/// Checks the configuration. On success the provider's base URL is
/// normalized: trimmed, parsed, stripped of query and fragment and of
/// trailing slashes.
pub fn validate(config: &mut AppConfig) -> (r: Result<(), VerbaError>)
    ensures
        final(config)@ == validate_effect(old(config)@),
        crate::error::result_view(r) == validate_result(old(config)@),
{
    validate_provider(config)?;
    validate_presets(config)?;
    Ok(())
}

fn validate_provider(config: &mut AppConfig) -> (r: Result<(), VerbaError>)
    ensures
        final(config)@ == validate_effect(old(config)@),
        match provider_check(old(config)@.provider) {
            Ok(_) => r is Ok,
            Err(e) => r matches Err(x) && x@ == e,
        },
{
    let text = trimmed(config.provider.base_url.as_str());
    let parsed = match parse_url(text.as_str()) {
        Ok(p) => p,
        Err(m) => {
            return Err(VerbaError::InvalidBaseUrl(m));
        },
    };
    let base = check_parsed_provider(
        &parsed,
        config.provider.timeout_secs,
        config.provider.temperature_bits,
    )?;
    config.provider.base_url = base;
    Ok(())
}

/// Checks the provider settings once the base URL has parsed; see
/// [`parsed_provider_check`]. On success returns the base URL without
/// query, fragment and trailing slashes.
pub fn check_parsed_provider(parts: &UrlParts, timeout_secs: u64, temperature_bits: u32) -> (r:
    Result<String, VerbaError>)
    ensures
        match parsed_provider_check(
            parts.scheme@,
            parts.path@,
            parts.through_path@,
            timeout_secs,
            temperature_bits,
        ) {
            Ok(base) => r matches Ok(x) && x@ == base,
            Err(e) => r matches Err(x) && x@ == e,
        },
{
    if !str_eq(parts.scheme.as_str(), "http") && !str_eq(parts.scheme.as_str(), "https") {
        return Err(
            VerbaError::InvalidBaseUrl(
                concat3("unsupported URL scheme `", parts.scheme.as_str(), "`"),
            ),
        );
    }
    let path = without_trailing_slashes(parts.path.as_str());
    if chars_eq_ignore_ascii_case(&chars_of(path.as_str()), &chars_of(CHAT_COMPLETIONS_PATH)) {
        return Err(
            VerbaError::InvalidBaseUrl(
                "base_url must not include /v1/chat/completions".to_string(),
            ),
        );
    }
    if timeout_secs == 0 {
        return Err(VerbaError::Config("provider.timeout_secs must be positive".to_string()));
    }
    if !temperature_bits_in_range(temperature_bits) {
        return Err(
            VerbaError::Config("provider.temperature must be between 0.0 and 2.0".to_string()),
        );
    }
    Ok(normalize_base_url(parts))
}

/// The base URL without query, fragment and trailing slashes.
fn normalize_base_url(url: &UrlParts) -> (r: String)
    ensures
        r@ == trim_end_slashes(url.through_path@),
{
    without_trailing_slashes(url.through_path.as_str())
}

/// Checks the presets of a configuration; see [`presets_fault`].
fn validate_presets(config: &AppConfig) -> (r: Result<(), VerbaError>)
    ensures
        match presets_fault(config@.presets) {
            None => r is Ok,
            Some(e) => r matches Err(x) && x@ == e,
        },
{
    check_presets(&config.presets)
}

/// Checks a list of presets; see [`presets_fault`].
#[verifier::loop_isolation(false)]
pub fn check_presets(presets: &Vec<Preset>) -> (r: Result<(), VerbaError>)
    ensures
        match presets_fault(crate::config::schema::presets_view(presets@)) {
            None => r is Ok,
            Some(e) => r matches Err(x) && x@ == e,
        },
{
    let ghost ps = crate::config::schema::presets_view(presets@);
    if presets.len() == 0 {
        return Err(VerbaError::Config("at least one preset is required".to_string()));
    }
    let mut keys: Vec<Vec<char>> = Vec::new();
    let mut i: usize = 0;
    while i < presets.len()
        invariant
            i <= presets.len(),
            ps == crate::config::schema::presets_view(presets@),
            ps.len() == presets.len(),
            keys.len() == i,
            forall|j: int| 0 <= j < i ==> (#[trigger] keys@[j])@ == name_key(ps[j].name),
            first_preset_fault(ps, 0) == first_preset_fault(ps, i as int),
        decreases presets.len() - i,
    {
        let p = &presets[i];
        assert(ps[i as int] == p@);
        if is_blank_str(p.id.as_str()) {
            return Err(VerbaError::Config("preset id is required".to_string()));
        }
        if is_blank_str(p.name.as_str()) {
            return Err(VerbaError::Config("preset name is required".to_string()));
        }
        let key = ascii_lowercase_chars(&chars_of(trimmed(p.name.as_str()).as_str()));
        let mut j: usize = 0;
        while j < keys.len()
            invariant
                j <= keys.len() == i,
                i < presets.len(),
                ps.len() == presets.len(),
                key@ == name_key(ps[i as int].name),
                forall|m: int| 0 <= m < i ==> (#[trigger] keys@[m])@ == name_key(ps[m].name),
                forall|m: int| 0 <= m < j ==> name_key(#[trigger] ps[m].name) != key@,
            decreases keys.len() - j,
        {
            if chars_eq(&keys[j], &key) {
                assert(name_key(ps[j as int].name) == name_key(ps[i as int].name));
                assert(preset_fault(ps, i as int) == Some(
                    ErrorView::Config("duplicate preset name `"@ + p.name@ + "`"@),
                ));
                assert(first_preset_fault(ps, i as int) == preset_fault(ps, i as int));
                return Err(
                    VerbaError::Config(
                        concat3("duplicate preset name `", p.name.as_str(), "`"),
                    ),
                );
            }
            j += 1;
        }
        if is_blank_str(p.instruction.as_str()) {
            return Err(VerbaError::Config("preset instruction is required".to_string()));
        }
        assert(preset_fault(ps, i as int) is None);
        keys.push(key);
        i += 1;
    }
    Ok(())
}

/// The `f32` with bit pattern `b` has a value `v` with `0.0 <= v <= 2.0`,
/// read from its IEEE 754 fields: a positive sign with an exponent field
/// below 128 (zero, subnormals and normal values below 2.0), or exactly
/// 2.0, or negative zero. NaNs and infinities are excluded.
pub open spec fn f32_value_within_zero_and_two(b: u32) -> bool {
    let sign = b >> 31u32;
    let exponent = (b >> 23u32) & 0xFFu32;
    let fraction = b & 0x7F_FFFFu32;
    ||| sign == 0 && exponent < 128
    ||| sign == 0 && exponent == 128 && fraction == 0
    ||| sign == 1 && exponent == 0 && fraction == 0
}

/// The temperature check accepts exactly the bit patterns of the `f32`
/// values from 0.0 to 2.0; in particular every pattern up to that of 2.0.
pub proof fn lemma_temperature_range_is_zero_to_two(b: u32)
    ensures
        temperature_in_range(b) <==> f32_value_within_zero_and_two(b),
        b <= 0x4000_0000 ==> temperature_in_range(b),
{
    assert((b <= 0x4000_0000u32 || b == 0x8000_0000u32) <==> ({
        let sign = b >> 31u32;
        let exponent = (b >> 23u32) & 0xFFu32;
        let fraction = b & 0x7F_FFFFu32;
        ||| sign == 0 && exponent < 128
        ||| sign == 0 && exponent == 128 && fraction == 0
        ||| sign == 1 && exponent == 0 && fraction == 0
    })) by (bit_vector);
}

/// A normalized base URL never ends in a slash.
pub proof fn lemma_normalized_base_url_has_no_trailing_slash(c: AppConfigView)
    requires
        provider_check(c.provider) is Ok,
    ensures
        validate_effect(c).provider.base_url.len() > 0 ==> validate_effect(c).provider.base_url.last()
            != '/',
{
    if let Ok((scheme, path, through_path, _)) = parsed_url(trim(c.provider.base_url)) {
        lemma_trim_end_char_prefix_shape(through_path, '/');
    }
}

proof fn lemma_no_fault_from(ps: Seq<PresetView>, i: int, k: int)
    requires
        0 <= i <= k < ps.len(),
        first_preset_fault(ps, i) is None,
    ensures
        preset_fault(ps, k) is None,
    decreases k - i,
{
    if i < k {
        lemma_no_fault_from(ps, i + 1, k);
    }
}

/// A list of presets that passes validation is not empty, every preset has
/// an id, a name and an instruction that are not blank, and no two names
/// are equal up to surrounding whitespace and ASCII case.
pub proof fn lemma_valid_presets(ps: Seq<PresetView>)
    requires
        presets_fault(ps) is None,
    ensures
        ps.len() > 0,
        forall|i: int|
            0 <= i < ps.len() ==> !is_blank(#[trigger] ps[i].id) && !is_blank(ps[i].name)
                && !is_blank(ps[i].instruction),
        forall|i: int, j: int|
            0 <= i < ps.len() && 0 <= j < ps.len() && i != j ==> name_key(#[trigger] ps[i].name)
                != name_key(#[trigger] ps[j].name),
{
    assert forall|i: int| 0 <= i < ps.len() implies !is_blank(#[trigger] ps[i].id) && !is_blank(
        ps[i].name,
    ) && !is_blank(ps[i].instruction) by {
        lemma_no_fault_from(ps, 0, i);
    }
    assert forall|i: int, j: int|
        0 <= i < ps.len() && 0 <= j < ps.len() && i != j implies name_key(#[trigger] ps[i].name)
        != name_key(#[trigger] ps[j].name) by {
        if i < j {
            lemma_no_fault_from(ps, 0, j);
        } else {
            lemma_no_fault_from(ps, 0, i);
        }
    }
}

/// After a configuration passes validation, the validated configuration's
/// presets still pass their checks, and so do its timeout and temperature.
/// Whether the normalized base URL parses again is left to the `url` crate
/// and not stated here.
pub proof fn lemma_validated_presets_stay_valid(c: AppConfigView)
    requires
        validate_result(c) is Ok,
    ensures
        presets_fault(validate_effect(c).presets) is None,
        validate_effect(c).provider.timeout_secs > 0,
        temperature_in_range(validate_effect(c).provider.temperature_bits),
{
}

/// The built-in presets pass validation.
pub proof fn lemma_default_presets_valid()
    ensures
        presets_fault(crate::config::schema::default_presets()) is None,
{
    let ps = crate::config::schema::default_presets();
    reveal_strlit("precise");
    reveal_strlit("Precise");
    reveal_strlit("Translate accurately and preserve the original meaning.");
    reveal_strlit("natural");
    reveal_strlit("Natural");
    reveal_strlit("Use natural, fluent wording in the target language.");
    reveal_strlit("formal");
    reveal_strlit("Formal");
    reveal_strlit("Use a formal and professional tone.");
    assert forall|i: int| 0 <= i < 3 implies {
        &&& trim(#[trigger] ps[i].name) == ps[i].name
        &&& !is_blank(ps[i].id)
        &&& !is_blank(ps[i].name)
        &&& !is_blank(ps[i].instruction)
    } by {
        lemma_plain_text_is_trimmed(ps[i].id);
        lemma_plain_text_is_trimmed(ps[i].name);
        lemma_plain_text_is_trimmed(ps[i].instruction);
    }
    assert(name_key(ps[0].name)[0] == 'p');
    assert(name_key(ps[1].name)[0] == 'n');
    assert(name_key(ps[2].name)[0] == 'f');
    assert(preset_fault(ps, 0) is None);
    assert(preset_fault(ps, 1) is None);
    assert(preset_fault(ps, 2) is None);
    assert(first_preset_fault(ps, 3) is None);
    assert(first_preset_fault(ps, 2) is None);
    assert(first_preset_fault(ps, 1) is None);
}

} // verus!
