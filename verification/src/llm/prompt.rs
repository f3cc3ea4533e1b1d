//! The system prompt sent with every translation.

use vstd::prelude::*;
use vstd::string::*;

use crate::config::schema::Preset;
use crate::text::{trim, trimmed};

verus! {

/// The fixed rules that close every system prompt.
pub const HARD_RULES: &'static str = "\n\nHard rules:\n- Return only the translated text.\n- Preserve paragraph breaks.\n- Preserve markdown structure.\n- Preserve URLs, code blocks, variables, placeholders, numbers, and product names unless translation is clearly required.\n- Do not explain the translation.";

/// The system prompt: the target language and the preset's instruction,
/// both trimmed, framed by fixed text and followed by [`HARD_RULES`].
pub open spec fn system_prompt(language: Seq<char>, instruction: Seq<char>) -> Seq<char> {
    "Translate this text into "@ + trim(language) + ".\n\nStyle and quality requirements:\n"@
        + trim(instruction) + HARD_RULES@
}

/// The system prompt for a target language and a preset.
pub fn build_system_prompt(language: &str, preset: &Preset) -> (r: String)
    ensures
        r@ == system_prompt(language@, preset.instruction@),
{
    let mut r = "Translate this text into ".to_string();
    r.append(trimmed(language).as_str());
    r.append(".\n\nStyle and quality requirements:\n");
    r.append(trimmed(preset.instruction.as_str()).as_str());
    r.append(HARD_RULES);
    r
}

} // verus!
