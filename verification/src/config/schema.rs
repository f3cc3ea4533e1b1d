//! The configuration schema and its defaults.
//!
//! The provider's sampling temperature is an `f32` in the configuration
//! file; here it is held as the IEEE-754 bit pattern of that `f32`
//! (`f32::to_bits`), which keeps the value exact.

use vstd::prelude::*;

use crate::error::{ErrorView, VerbaError};

verus! {

/// One translation style that the user can pick.
#[derive(Debug, PartialEq, Eq)]
pub struct Preset {
    pub id: String,
    pub name: String,
    pub instruction: String,
}

pub struct PresetView {
    pub id: Seq<char>,
    pub name: Seq<char>,
    pub instruction: Seq<char>,
}

impl View for Preset {
    type V = PresetView;

    open spec fn view(&self) -> PresetView {
        PresetView { id: self.id@, name: self.name@, instruction: self.instruction@ }
    }
}

impl Clone for Preset {
    fn clone(&self) -> (r: Self)
        ensures
            r == *self,
    {
        Preset { id: self.id.clone(), name: self.name.clone(), instruction: self.instruction.clone() }
    }
}

/// The views of a sequence of presets.
pub open spec fn presets_view(ps: Seq<Preset>) -> Seq<PresetView> {
    ps.map_values(|p: Preset| p@)
}

/// Connection settings of the OpenAI-compatible provider.
#[derive(Debug, PartialEq)]
pub struct ProviderConfig {
    pub base_url: String,
    pub model_name: String,
    pub timeout_secs: u64,
    /// `f32::to_bits` of the sampling temperature.
    pub temperature_bits: u32,
    pub max_tokens: Option<u32>,
}

pub struct ProviderView {
    pub base_url: Seq<char>,
    pub model_name: Seq<char>,
    pub timeout_secs: u64,
    pub temperature_bits: u32,
    pub max_tokens: Option<u32>,
}

impl View for ProviderConfig {
    type V = ProviderView;

    open spec fn view(&self) -> ProviderView {
        ProviderView {
            base_url: self.base_url@,
            model_name: self.model_name@,
            timeout_secs: self.timeout_secs,
            temperature_bits: self.temperature_bits,
            max_tokens: self.max_tokens,
        }
    }
}

impl Clone for ProviderConfig {
    fn clone(&self) -> (r: Self)
        ensures
            r == *self,
    {
        ProviderConfig {
            base_url: self.base_url.clone(),
            model_name: self.model_name.clone(),
            timeout_secs: self.timeout_secs,
            temperature_bits: self.temperature_bits,
            max_tokens: self.max_tokens,
        }
    }
}

/// What the window remembers between runs.
#[derive(Debug, PartialEq)]
pub struct UiConfig {
    pub last_language: String,
    pub last_preset_id: String,
    pub window_width: i32,
    pub window_height: i32,
}

pub struct UiView {
    pub last_language: Seq<char>,
    pub last_preset_id: Seq<char>,
    pub window_width: i32,
    pub window_height: i32,
}

impl View for UiConfig {
    type V = UiView;

    open spec fn view(&self) -> UiView {
        UiView {
            last_language: self.last_language@,
            last_preset_id: self.last_preset_id@,
            window_width: self.window_width,
            window_height: self.window_height,
        }
    }
}

impl Clone for UiConfig {
    fn clone(&self) -> (r: Self)
        ensures
            r == *self,
    {
        UiConfig {
            last_language: self.last_language.clone(),
            last_preset_id: self.last_preset_id.clone(),
            window_width: self.window_width,
            window_height: self.window_height,
        }
    }
}

/// The whole configuration file.
#[derive(Debug, PartialEq)]
pub struct AppConfig {
    pub provider: ProviderConfig,
    pub ui: UiConfig,
    pub presets: Vec<Preset>,
}

pub struct AppConfigView {
    pub provider: ProviderView,
    pub ui: UiView,
    pub presets: Seq<PresetView>,
}

impl View for AppConfig {
    type V = AppConfigView;

    open spec fn view(&self) -> AppConfigView {
        AppConfigView { provider: self.provider@, ui: self.ui@, presets: presets_view(self.presets@) }
    }
}

/// A copy of a list of presets.
pub fn clone_presets(ps: &Vec<Preset>) -> (r: Vec<Preset>)
    ensures
        r@ == ps@,
{
    let mut r: Vec<Preset> = Vec::new();
    for i in 0..ps.len()
        invariant
            r@ == ps@.take(i as int),
    {
        r.push(ps[i].clone());
        assert(ps@.take(i + 1) == ps@.take(i as int).push(ps@[i as int]));
    }
    assert(ps@.take(ps.len() as int) == ps@);
    r
}

impl Clone for AppConfig {
    fn clone(&self) -> (r: Self)
        ensures
            r@ == self@,
    {
        AppConfig {
            provider: self.provider.clone(),
            ui: self.ui.clone(),
            presets: clone_presets(&self.presets),
        }
    }
}

/// `0.2_f32.to_bits()`.
pub const DEFAULT_TEMPERATURE_BITS: u32 = 0x3E4C_CCCD;

/// The built-in presets, in their order.
pub open spec fn default_presets() -> Seq<PresetView> {
    seq![
        PresetView {
            id: "precise"@,
            name: "Precise"@,
            instruction: "Translate accurately and preserve the original meaning."@,
        },
        PresetView {
            id: "natural"@,
            name: "Natural"@,
            instruction: "Use natural, fluent wording in the target language."@,
        },
        PresetView { id: "formal"@, name: "Formal"@, instruction: "Use a formal and professional tone."@ },
    ]
}

/// The configuration written on first start.
pub open spec fn default_config() -> AppConfigView {
    AppConfigView {
        provider: ProviderView {
            base_url: "https://api.openai.com"@,
            model_name: Seq::empty(),
            timeout_secs: 30,
            temperature_bits: DEFAULT_TEMPERATURE_BITS,
            max_tokens: None,
        },
        ui: UiView {
            last_language: "English"@,
            last_preset_id: "precise"@,
            window_width: 960,
            window_height: 640,
        },
        presets: default_presets(),
    }
}

fn preset(id: &str, name: &str, instruction: &str) -> (p: Preset)
    ensures
        p@ == (PresetView { id: id@, name: name@, instruction: instruction@ }),
{
    Preset { id: id.to_string(), name: name.to_string(), instruction: instruction.to_string() }
}

impl AppConfig {
    /// The configuration written on first start: the OpenAI base URL, no
    /// model, a 30 second timeout, temperature 0.2 and three presets.
    pub fn default_config() -> (c: AppConfig)
        ensures
            c@ == default_config(),
    {
        let presets = vec![
            preset("precise", "Precise", "Translate accurately and preserve the original meaning."),
            preset("natural", "Natural", "Use natural, fluent wording in the target language."),
            preset("formal", "Formal", "Use a formal and professional tone."),
        ];
        let c = AppConfig {
            provider: ProviderConfig {
                base_url: "https://api.openai.com".to_string(),
                model_name: String::new(),
                timeout_secs: 30,
                temperature_bits: DEFAULT_TEMPERATURE_BITS,
                max_tokens: None,
            },
            ui: UiConfig {
                last_language: "English".to_string(),
                last_preset_id: "precise".to_string(),
                window_width: 960,
                window_height: 640,
            },
            presets,
        };
        assert(presets_view(c.presets@) =~= default_presets());
        c
    }

    /// Checks the configuration and normalizes the provider base URL; see
    /// [`crate::config::validation::validate`].
    pub fn validate(&mut self) -> (r: Result<(), VerbaError>)
        ensures
            final(self)@ == crate::config::validation::validate_effect(old(self)@),
            crate::error::result_view(r) == crate::config::validation::validate_result(
                old(self)@,
            ),
    {
        crate::config::validation::validate(self)
    }
}

impl Default for AppConfig {
    fn default() -> (c: AppConfig)
        ensures
            c@ == default_config(),
    {
        AppConfig::default_config()
    }
}

} // verus!
