//! The settings form: what it holds and how it turns into a configuration.

use vstd::prelude::*;

use crate::config::schema::{clone_presets, presets_view, AppConfig, AppConfigView, Preset, PresetView, ProviderView};
use crate::config::validation::{validate, validate_effect, validate_result};
use crate::error::{ErrorView, VerbaError};
use crate::text::{is_blank, is_blank_str, lemma_trim_idempotent, trim, trimmed};

verus! {

/// What to do with the stored API key.
#[derive(Debug, PartialEq, Eq)]
pub enum ApiKeyEdit {
    Unchanged,
    Replace(String),
    Clear,
}

impl Clone for ApiKeyEdit {
    fn clone(&self) -> (r: Self)
        ensures
            r == *self,
    {
        match self {
            ApiKeyEdit::Unchanged => ApiKeyEdit::Unchanged,
            ApiKeyEdit::Replace(k) => ApiKeyEdit::Replace(k.clone()),
            ApiKeyEdit::Clear => ApiKeyEdit::Clear,
        }
    }
}

/// What the settings form holds when the user saves it.
#[derive(Debug, PartialEq, Eq)]
pub struct SettingsDraft {
    pub base_url: String,
    pub model_name: String,
    pub api_key: ApiKeyEdit,
    pub presets: Vec<Preset>,
}

impl Clone for SettingsDraft {
    fn clone(&self) -> (r: Self)
        ensures
            r.base_url@ == self.base_url@,
            r.model_name@ == self.model_name@,
            r.api_key == self.api_key,
            presets_view(r.presets@) == presets_view(self.presets@),
    {
        SettingsDraft {
            base_url: self.base_url.clone(),
            model_name: self.model_name.clone(),
            api_key: self.api_key.clone(),
            presets: clone_presets(&self.presets),
        }
    }
}

/// The configuration that saving the form produces from `config`, or the
/// reason it is refused. The API key plays no part in it.
pub open spec fn settings_outcome(
    base_url: Seq<char>,
    model_name: Seq<char>,
    presets: Seq<PresetView>,
    config: AppConfigView,
) -> Result<AppConfigView, ErrorView> {
    if is_blank(base_url) {
        Err(ErrorView::Config("LLM Provider base url is required"@))
    } else if is_blank(model_name) {
        Err(ErrorView::Config("model name is required"@))
    } else {
        let edited = AppConfigView {
            provider: ProviderView {
                base_url: trim(base_url),
                model_name: trim(model_name),
                ..config.provider
            },
            presets: presets,
            ..config
        };
        match validate_result(edited) {
            Ok(_) => Ok(validate_effect(edited)),
            Err(e) => Err(e),
        }
    }
}

impl SettingsDraft {
    /// The form filled from a configuration, leaving the API key as it is.
    pub fn from_config(config: &AppConfig) -> (d: Self)
        ensures
            d.base_url@ == config@.provider.base_url,
            d.model_name@ == config@.provider.model_name,
            d.api_key == ApiKeyEdit::Unchanged,
            presets_view(d.presets@) == config@.presets,
    {
        Self {
            base_url: config.provider.base_url.clone(),
            model_name: config.provider.model_name.clone(),
            api_key: ApiKeyEdit::Unchanged,
            presets: clone_presets(&config.presets),
        }
    }

    pub fn with_api_key(self, api_key: ApiKeyEdit) -> (d: Self)
        ensures
            d.base_url == self.base_url,
            d.model_name == self.model_name,
            d.api_key == api_key,
            d.presets == self.presets,
    {
        let mut d = self;
        d.api_key = api_key;
        d
    }

    /// The configuration with the form's base URL, model and presets,
    /// validated; see [`settings_outcome`].
    pub fn validated_config(&self, config: AppConfig) -> (r: Result<AppConfig, VerbaError>)
        ensures
            match settings_outcome(
                self.base_url@,
                self.model_name@,
                presets_view(self.presets@),
                config@,
            ) {
                Ok(c) => r matches Ok(x) && x@ == c,
                Err(e) => r matches Err(x) && x@ == e,
            },
    {
        if is_blank_str(self.base_url.as_str()) {
            return Err(VerbaError::Config("LLM Provider base url is required".to_string()));
        }
        if is_blank_str(self.model_name.as_str()) {
            return Err(VerbaError::Config("model name is required".to_string()));
        }
        let mut config = config;
        config.provider.base_url = trimmed(self.base_url.as_str());
        config.provider.model_name = trimmed(self.model_name.as_str());
        config.presets = clone_presets(&self.presets);
        validate(&mut config)?;
        Ok(config)
    }
}

/// What an API key field's text means: nothing entered leaves the key as
/// it is, anything else replaces it with the trimmed text.
pub fn api_key_edit_from_text(text: &str) -> (r: ApiKeyEdit)
    ensures
        if is_blank(text@) {
            r == ApiKeyEdit::Unchanged
        } else {
            r matches ApiKeyEdit::Replace(k) && k@ == trim(text@)
        },
{
    let value = trimmed(text);
    proof {
        lemma_trim_idempotent(text@);
    }
    if is_blank_str(value.as_str()) {
        ApiKeyEdit::Unchanged
    } else {
        ApiKeyEdit::Replace(value)
    }
}

/// Saving the form keeps exactly the form's presets, whatever presets the
/// old configuration held, the trimmed model name, and the old
/// configuration's window settings and other provider settings but the
/// base URL.
pub proof fn lemma_saved_config_takes_form(
    base_url: Seq<char>,
    model_name: Seq<char>,
    presets: Seq<PresetView>,
    config: AppConfigView,
)
    ensures
        settings_outcome(base_url, model_name, presets, config) matches Ok(c) ==> {
            &&& c.presets == presets
            &&& c.provider.model_name == trim(model_name)
            &&& c.provider.timeout_secs == config.provider.timeout_secs
            &&& c.provider.temperature_bits == config.provider.temperature_bits
            &&& c.provider.max_tokens == config.provider.max_tokens
            &&& c.ui == config.ui
        },
{
}

/// The API key never reaches the configuration: two forms that differ only
/// in their API key produce the same configuration or the same refusal.
pub proof fn lemma_api_key_not_in_config(a: SettingsDraft, b: SettingsDraft, config: AppConfigView)
    requires
        a.base_url@ == b.base_url@,
        a.model_name@ == b.model_name@,
        presets_view(a.presets@) == presets_view(b.presets@),
    ensures
        settings_outcome(a.base_url@, a.model_name@, presets_view(a.presets@), config)
            == settings_outcome(b.base_url@, b.model_name@, presets_view(b.presets@), config),
{
}

} // verus!
