//! The daemon's state machine: window visibility, the translation in
//! flight and shutdown, together with the steps of a translation request.
//!
//! The state is a plain value; the application shares one instance between
//! its D-Bus service, its tray icon and its window behind a lock.

use vstd::prelude::*;

use crate::config::schema::{
    clone_presets, AppConfig, AppConfigView, Preset, PresetView, ProviderConfig, ProviderView,
};
use crate::llm::errors::{LlmError, LlmErrorKind};
use crate::notify::Urgency;
use crate::text::{contains_seq, is_blank, is_blank_str, str_contains, str_eq, trim, trimmed};

verus! {

/// Where the application is in its life.
#[derive(Clone, Copy, Debug, PartialEq, Eq, Structural)]
pub enum AppState {
    Hidden,
    VisibleIdle,
    VisibleTranslating,
    HiddenTranslating,
    SettingsOpen,
    Exiting,
    CancellingThenExit,
}

/// The state is one that ends the application.
pub open spec fn exiting(s: AppState) -> bool {
    s == AppState::Exiting || s == AppState::CancellingThenExit
}

/// The main window is on screen in this state.
pub open spec fn visible(s: AppState) -> bool {
    s == AppState::VisibleIdle || s == AppState::VisibleTranslating || s == AppState::SettingsOpen
}

/// The state after the window is toggled.
pub open spec fn toggled(s: AppState) -> AppState {
    match s {
        AppState::Hidden => AppState::VisibleIdle,
        AppState::HiddenTranslating => AppState::VisibleTranslating,
        AppState::VisibleIdle => AppState::Hidden,
        AppState::VisibleTranslating => AppState::HiddenTranslating,
        AppState::SettingsOpen => AppState::Hidden,
        AppState::Exiting => AppState::Exiting,
        AppState::CancellingThenExit => AppState::CancellingThenExit,
    }
}

/// The state after the window is shown.
pub open spec fn shown(s: AppState) -> AppState {
    match s {
        AppState::Hidden => AppState::VisibleIdle,
        AppState::HiddenTranslating => AppState::VisibleTranslating,
        _ => s,
    }
}

/// The state after the window is hidden.
pub open spec fn hidden(s: AppState) -> AppState {
    match s {
        AppState::VisibleIdle => AppState::Hidden,
        AppState::SettingsOpen => AppState::Hidden,
        AppState::VisibleTranslating => AppState::HiddenTranslating,
        _ => s,
    }
}

/// The state after the settings are opened.
pub open spec fn with_settings(s: AppState) -> AppState {
    if exiting(s) {
        s
    } else {
        AppState::SettingsOpen
    }
}

/// The state after a quit request.
pub open spec fn quitting(busy: bool) -> AppState {
    if busy {
        AppState::CancellingThenExit
    } else {
        AppState::Exiting
    }
}

/// The state once a translation starts.
pub open spec fn translating(s: AppState) -> AppState {
    match s {
        AppState::Hidden => AppState::HiddenTranslating,
        AppState::Exiting => AppState::Exiting,
        AppState::CancellingThenExit => AppState::CancellingThenExit,
        _ => AppState::VisibleTranslating,
    }
}

/// The state once a translation ends.
pub open spec fn finished(s: AppState) -> AppState {
    match s {
        AppState::VisibleTranslating => AppState::VisibleIdle,
        AppState::HiddenTranslating => AppState::Hidden,
        AppState::CancellingThenExit => AppState::Exiting,
        _ => s,
    }
}

/// The application's state, the translation in flight, the preset in use
/// and the configuration. It is a value with one owner; the application
/// shares a single instance behind a lock.
#[derive(Debug)]
pub struct AppRuntime {
    state: AppState,
    busy: bool,
    current_preset: String,
    config: AppConfig,
}

pub struct RuntimeView {
    pub state: AppState,
    pub busy: bool,
    pub current_preset: Seq<char>,
    pub config: AppConfigView,
}

impl View for AppRuntime {
    type V = RuntimeView;

    closed spec fn view(&self) -> RuntimeView {
        RuntimeView {
            state: self.state,
            busy: self.busy,
            current_preset: self.current_preset@,
            config: self.config@,
        }
    }
}

/// The user-facing result of a translation request: the translated text,
/// or a message.
#[derive(Debug, PartialEq, Eq)]
pub struct TranslationOutcome {
    pub translated_text: Option<String>,
    pub message: Option<String>,
}

fn clone_text(t: &Option<String>) -> (r: Option<String>)
    ensures
        r == *t,
{
    match t {
        Some(s) => Some(s.clone()),
        None => None,
    }
}

impl Clone for TranslationOutcome {
    fn clone(&self) -> (r: Self)
        ensures
            r == *self,
    {
        TranslationOutcome {
            translated_text: clone_text(&self.translated_text),
            message: clone_text(&self.message),
        }
    }
}

/// An outcome carrying a translation.
pub open spec fn success_outcome(o: TranslationOutcome, text: Seq<char>) -> bool {
    &&& o.translated_text matches Some(t) && t@ == text
    &&& o.message is None
}

/// An outcome carrying only a message.
pub open spec fn message_outcome(o: TranslationOutcome, text: Seq<char>) -> bool {
    &&& o.translated_text is None
    &&& o.message matches Some(m) && m@ == text
}

impl TranslationOutcome {
    /// A translated text.
    pub fn success(text: &str) -> (o: Self)
        ensures
            success_outcome(o, text@),
    {
        Self { translated_text: Some(text.to_string()), message: None }
    }

    /// A problem with what the user entered or configured.
    pub fn validation_error(message: &str) -> (o: Self)
        ensures
            message_outcome(o, message@),
    {
        Self { translated_text: None, message: Some(message.to_string()) }
    }

    /// A failure of the provider.
    pub fn failure(message: &str) -> (o: Self)
        ensures
            message_outcome(o, message@),
    {
        Self { translated_text: None, message: Some(message.to_string()) }
    }
}

/// What a translation request needs once the user's input has passed the
/// checks: trimmed input and language, the chosen preset and the provider.
#[derive(Debug)]
pub struct TranslationRequest {
    pub input: String,
    pub language: String,
    pub preset: Preset,
    pub provider: ProviderConfig,
}

/// A desktop notification to be shown to the user.
#[derive(Debug, PartialEq, Eq)]
pub struct Notification {
    pub title: String,
    pub message: String,
    pub urgency: Urgency,
}

/// `n` tells of a failed translation with the message `message`.
pub open spec fn failure_notice(n: Notification, message: Seq<char>) -> bool {
    &&& n.title@ == "Translation failed"@
    &&& n.message@ == message
    &&& n.urgency == urgency_for(message)
}

/// The index of the first preset with the given id.
pub open spec fn first_with_id(ps: Seq<PresetView>, id: Seq<char>, i: int) -> bool {
    0 <= i < ps.len() && ps[i].id == id && forall|j: int| 0 <= j < i ==> #[trigger] ps[j].id != id
}

/// Why a translation request is refused before the API key is read, if it
/// is.
pub open spec fn request_refusal(
    c: AppConfigView,
    input: Seq<char>,
    language: Seq<char>,
    preset_id: Seq<char>,
) -> Option<Seq<char>> {
    if is_blank(input) {
        Some("Enter text to translate."@)
    } else if is_blank(language) {
        Some("Enter target language."@)
    } else if is_blank(c.provider.model_name) {
        Some("Model name is not configured. Open Settings."@)
    } else if !(exists|i: int| 0 <= i < c.presets.len() && #[trigger] c.presets[i].id == preset_id) {
        Some("Select a preset."@)
    } else {
        None
    }
}

/// The user-facing message for a kind of provider failure.
pub open spec fn provider_text(kind: LlmErrorKind) -> Seq<char> {
    match kind {
        LlmErrorKind::UnauthorizedOrForbidden => "Provider returned 403. Check API key and model permissions."@,
        LlmErrorKind::NotFound => "Provider returned 404. Check base URL and model name."@,
        LlmErrorKind::RateLimited => "Provider returned 429. Try again later."@,
        LlmErrorKind::ProviderOverloaded => "Provider returned 529. Try again later."@,
        LlmErrorKind::ServerError => "Provider returned a server error. Try again later."@,
        LlmErrorKind::Timeout => "Request timed out. Try again later."@,
        LlmErrorKind::Network => "Network error. Check your connection and provider URL."@,
        LlmErrorKind::InvalidResponse => "Provider returned an invalid response."@,
        LlmErrorKind::MissingConfiguration => "Model name is not configured. Open Settings."@,
    }
}

/// How urgent the notification about a failure message is: critical when
/// it mentions 403 or 404.
pub open spec fn urgency_for(message: Seq<char>) -> Urgency {
    if contains_seq(message, "403"@) || contains_seq(message, "404"@) {
        Urgency::Critical
    } else {
        Urgency::Normal
    }
}

impl AppRuntime {
    pub closed spec fn spec_state(&self) -> AppState {
        self.state
    }

    /// A runtime with the default configuration, except that the given
    /// preset is the last one used.
    pub fn new(current_preset: &str) -> (r: Self)
        ensures
            r@.state == AppState::Hidden,
            !r@.busy,
            r@.current_preset == current_preset@,
            r@.config == (AppConfigView {
                ui: crate::config::schema::UiView {
                    last_preset_id: current_preset@,
                    ..crate::config::schema::default_config().ui
                },
                ..crate::config::schema::default_config()
            }),
    {
        let mut config = AppConfig::default_config();
        config.ui.last_preset_id = current_preset.to_string();
        Self::from_config(config)
    }

    /// A hidden, idle runtime with the given configuration, using its last
    /// preset.
    pub fn from_config(config: AppConfig) -> (r: Self)
        ensures
            r@.state == AppState::Hidden,
            !r@.busy,
            r@.current_preset == config@.ui.last_preset_id,
            r@.config == config@,
    {
        let current_preset = config.ui.last_preset_id.clone();
        Self { state: AppState::Hidden, busy: false, current_preset, config }
    }

    /// Shows a hidden window and hides a shown one.
    pub fn toggle_main_window(&mut self)
        ensures
            final(self)@ == (RuntimeView { state: toggled(old(self)@.state), ..old(self)@ }),
    {
        self.state = match self.state {
            AppState::Hidden => AppState::VisibleIdle,
            AppState::HiddenTranslating => AppState::VisibleTranslating,
            AppState::VisibleIdle => AppState::Hidden,
            AppState::VisibleTranslating => AppState::HiddenTranslating,
            AppState::SettingsOpen => AppState::Hidden,
            AppState::Exiting => AppState::Exiting,
            AppState::CancellingThenExit => AppState::CancellingThenExit,
        };
    }

    /// Shows the window.
    pub fn show_main_window(&mut self)
        ensures
            final(self)@ == (RuntimeView { state: shown(old(self)@.state), ..old(self)@ }),
    {
        self.state = match self.state {
            AppState::Hidden => AppState::VisibleIdle,
            AppState::HiddenTranslating => AppState::VisibleTranslating,
            s => s,
        };
    }

    /// Hides the window.
    pub fn hide_main_window(&mut self)
        ensures
            final(self)@ == (RuntimeView { state: hidden(old(self)@.state), ..old(self)@ }),
    {
        self.state = match self.state {
            AppState::VisibleIdle | AppState::SettingsOpen => AppState::Hidden,
            AppState::VisibleTranslating => AppState::HiddenTranslating,
            s => s,
        };
    }

    /// Opens the settings, unless the application is exiting.
    pub fn open_settings(&mut self)
        ensures
            final(self)@ == (RuntimeView { state: with_settings(old(self)@.state), ..old(self)@ }),
    {
        if !(self.state == AppState::Exiting || self.state == AppState::CancellingThenExit) {
            self.state = AppState::SettingsOpen;
        }
    }

    /// Ends the application, after the translation in flight if there is
    /// one.
    pub fn quit(&mut self)
        ensures
            final(self)@ == (RuntimeView { state: quitting(old(self)@.busy), ..old(self)@ }),
    {
        self.state = if self.busy {
            AppState::CancellingThenExit
        } else {
            AppState::Exiting
        };
    }

    /// A request to reload the configuration; the runtime keeps the one it
    /// holds.
    pub fn reload_config(&mut self)
        ensures
            final(self)@ == old(self)@,
    {
    }

    /// Takes a new configuration and its last preset.
    pub fn update_config(&mut self, config: AppConfig)
        ensures
            final(self)@ == (RuntimeView {
                current_preset: config@.ui.last_preset_id,
                config: config@,
                ..old(self)@
            }),
    {
        self.current_preset = config.ui.last_preset_id.clone();
        self.config = config;
    }

    /// Marks a translation as in flight.
    pub fn translate(&mut self)
        ensures
            final(self)@ == (RuntimeView {
                state: translating(old(self)@.state),
                busy: true,
                ..old(self)@
            }),
    {
        self.busy = true;
        self.state = match self.state {
            AppState::Hidden => AppState::HiddenTranslating,
            AppState::Exiting => AppState::Exiting,
            AppState::CancellingThenExit => AppState::CancellingThenExit,
            _ => AppState::VisibleTranslating,
        };
    }

    /// Marks the translation in flight as done.
    pub fn finish_translation(&mut self)
        ensures
            final(self)@ == (RuntimeView {
                state: finished(old(self)@.state),
                busy: false,
                ..old(self)@
            }),
    {
        self.busy = false;
        self.state = match self.state {
            AppState::VisibleTranslating => AppState::VisibleIdle,
            AppState::HiddenTranslating => AppState::Hidden,
            AppState::CancellingThenExit => AppState::Exiting,
            s => s,
        };
    }

    pub fn state(&self) -> (s: AppState)
        ensures
            s == self@.state,
    {
        self.state
    }

    /// Whether the main window is on screen.
    pub fn main_window_visible(&self) -> (b: bool)
        ensures
            b == visible(self@.state),
    {
        match self.state {
            AppState::VisibleIdle | AppState::VisibleTranslating | AppState::SettingsOpen => true,
            _ => false,
        }
    }

    pub fn busy(&self) -> (b: bool)
        ensures
            b == self@.busy,
    {
        self.busy
    }

    pub fn current_preset(&self) -> (p: String)
        ensures
            p@ == self@.current_preset,
    {
        self.current_preset.clone()
    }

    pub fn config(&self) -> (c: AppConfig)
        ensures
            c@ == self@.config,
    {
        self.config.clone()
    }

    /// Whether the application is ending.
    pub fn is_exiting(&self) -> (b: bool)
        ensures
            b == exiting(self@.state),
    {
        self.state == AppState::Exiting || self.state == AppState::CancellingThenExit
    }

    /// The checks a translation request goes through before the API key
    /// is read: input and language must not be blank, a model must be
    /// configured and the preset must exist. On success the request holds
    /// the trimmed input and language, the first preset with the id and the
    /// provider settings.
    #[verifier::loop_isolation(false)]
    pub fn begin_translation(&self, input: &str, language: &str, preset_id: &str) -> (r: Result<
        TranslationRequest,
        TranslationOutcome,
    >)
        ensures
            match request_refusal(self@.config, input@, language@, preset_id@) {
                Some(m) => r matches Err(o) && message_outcome(o, m),
                None => r matches Ok(q) && {
                    &&& q.input@ == trim(input@)
                    &&& q.language@ == trim(language@)
                    &&& q.provider@ == self@.config.provider
                    &&& exists|i: int|
                        first_with_id(self@.config.presets, preset_id@, i)
                            && #[trigger] self@.config.presets[i] == q.preset@
                },
            },
    {
        let input_text = trimmed(input);
        let language_text = trimmed(language);
        if is_blank_str(input) {
            return Err(TranslationOutcome::validation_error("Enter text to translate."));
        }
        if is_blank_str(language) {
            return Err(TranslationOutcome::validation_error("Enter target language."));
        }
        if is_blank_str(self.config.provider.model_name.as_str()) {
            return Err(
                TranslationOutcome::validation_error("Model name is not configured. Open Settings."),
            );
        }
        let presets = &self.config.presets;
        let ghost ps = self@.config.presets;
        let mut i: usize = 0;
        while i < presets.len()
            invariant
                i <= presets.len(),
                ps == crate::config::schema::presets_view(presets@),
                forall|j: int| 0 <= j < i ==> #[trigger] ps[j].id != preset_id@,
            decreases presets.len() - i,
        {
            if str_eq(presets[i].id.as_str(), preset_id) {
                assert(first_with_id(ps, preset_id@, i as int));
                return Ok(
                    TranslationRequest {
                        input: input_text,
                        language: language_text,
                        preset: presets[i].clone(),
                        provider: self.config.provider.clone(),
                    },
                );
            }
            i += 1;
        }
        Err(TranslationOutcome::validation_error("Select a preset."))
    }

    /// Takes the API key that the secret store returned. A missing or blank
    /// key refuses the request; otherwise the translation is marked as in
    /// flight and the key is handed back.
    pub fn accept_api_key(&mut self, api_key: Option<String>) -> (r: Result<
        String,
        TranslationOutcome,
    >)
        ensures
            match api_key {
                Some(k) if !is_blank(k@) => r matches Ok(key) && key@ == k@ && final(self)@ == (
                RuntimeView { state: translating(old(self)@.state), busy: true, ..old(self)@ }),
                _ => r matches Err(o) && message_outcome(o, "API key is not configured."@)
                    && final(self)@ == old(self)@,
            },
    {
        match api_key {
            Some(key) => {
                if is_blank_str(key.as_str()) {
                    Err(TranslationOutcome::validation_error("API key is not configured."))
                } else {
                    self.translate();
                    Ok(key)
                }
            },
            None => Err(TranslationOutcome::validation_error("API key is not configured.")),
        }
    }

    /// Ends the translation in flight with what the provider answered: the
    /// translated text, or the failure's message together with the
    /// notification that tells the user of it.
    pub fn complete_translation(&mut self, result: Result<String, LlmError>) -> (r: (
        TranslationOutcome,
        Option<Notification>,
    ))
        ensures
            final(self)@ == (RuntimeView {
                state: finished(old(self)@.state),
                busy: false,
                ..old(self)@
            }),
            match result {
                Ok(t) => success_outcome(r.0, t@) && r.1 is None,
                Err(e) => {
                    &&& message_outcome(r.0, provider_text(e.spec_kind()))
                    &&& r.1 matches Some(n) && failure_notice(n, provider_text(e.spec_kind()))
                },
            },
    {
        let r = match result {
            Ok(translated) => (TranslationOutcome::success(translated.as_str()), None),
            Err(error) => {
                let outcome = llm_to_outcome(&error);
                let notification = notify_failure(&outcome);
                (outcome, notification)
            },
        };
        self.finish_translation();
        r
    }
}

impl Default for AppRuntime {
    fn default() -> (r: Self)
        ensures
            r@.state == AppState::Hidden,
            !r@.busy,
            r@.current_preset == "precise"@,
            r@.config == (AppConfigView {
                ui: crate::config::schema::UiView {
                    last_preset_id: "precise"@,
                    ..crate::config::schema::default_config().ui
                },
                ..crate::config::schema::default_config()
            }),
    {
        Self::new("precise")
    }
}

/// The user-facing outcome for a provider failure.
pub fn llm_to_outcome(error: &LlmError) -> (o: TranslationOutcome)
    ensures
        message_outcome(o, provider_text(error.spec_kind())),
{
    TranslationOutcome::failure(provider_message(error.kind()))
}

/// The user-facing message for a kind of provider failure.
pub fn provider_message(kind: LlmErrorKind) -> (m: &'static str)
    ensures
        m@ == provider_text(kind),
{
    match kind {
        LlmErrorKind::UnauthorizedOrForbidden => "Provider returned 403. Check API key and model permissions.",
        LlmErrorKind::NotFound => "Provider returned 404. Check base URL and model name.",
        LlmErrorKind::RateLimited => "Provider returned 429. Try again later.",
        LlmErrorKind::ProviderOverloaded => "Provider returned 529. Try again later.",
        LlmErrorKind::ServerError => "Provider returned a server error. Try again later.",
        LlmErrorKind::Timeout => "Request timed out. Try again later.",
        LlmErrorKind::Network => "Network error. Check your connection and provider URL.",
        LlmErrorKind::InvalidResponse => "Provider returned an invalid response.",
        LlmErrorKind::MissingConfiguration => "Model name is not configured. Open Settings.",
    }
}

/// How urgent the notification about a failure message is.
pub fn failure_urgency(message: &str) -> (u: Urgency)
    ensures
        u == urgency_for(message@),
{
    if str_contains(message, "403") || str_contains(message, "404") {
        Urgency::Critical
    } else {
        Urgency::Normal
    }
}

/// The notification about an outcome that carries a message: titled
/// "Translation failed", with the message, critical when the message names
/// 403 or 404 and normal otherwise. An outcome without a message gives none.
pub fn notify_failure(outcome: &TranslationOutcome) -> (n: Option<Notification>)
    ensures
        match outcome.message {
            Some(m) => n matches Some(x) && failure_notice(x, m@),
            None => n is None,
        },
{
    match &outcome.message {
        Some(message) => {
            let urgency = failure_urgency(message.as_str());
            Some(
                Notification {
                    title: "Translation failed".to_string(),
                    message: message.clone(),
                    urgency,
                },
            )
        },
        None => None,
    }
}

/// Showing the window twice is showing it once, and likewise for hiding.
pub proof fn lemma_visibility_commands_idempotent(s: AppState)
    ensures
        shown(shown(s)) == shown(s),
        hidden(hidden(s)) == hidden(s),
{
}

/// After a show the window is on screen unless the application is ending;
/// after a hide it is never on screen.
pub proof fn lemma_show_and_hide_decide_visibility(s: AppState)
    ensures
        !exiting(s) ==> visible(shown(s)),
        !visible(hidden(s)),
{
}

/// A toggle flips whether the window is on screen, unless the application
/// is ending; two toggles restore every state but the open settings.
pub proof fn lemma_toggle_flips_visibility(s: AppState)
    ensures
        !exiting(s) ==> visible(toggled(s)) != visible(s),
        s != AppState::SettingsOpen ==> toggled(toggled(s)) == s,
{
}

/// Once the application is ending, no window command, settings request or
/// translation brings it back, and a quit always ends it.
pub proof fn lemma_exiting_is_final(s: AppState, busy: bool)
    requires
        exiting(s),
    ensures
        toggled(s) == s,
        shown(s) == s,
        hidden(s) == s,
        with_settings(s) == s,
        translating(s) == s,
        exiting(finished(s)),
        exiting(quitting(busy)),
{
}

/// A translation does not change whether the window is on screen, and one
/// started from the idle hidden or shown window returns to it. (A second
/// translation started while one runs behind a hidden window shows the
/// window.)
pub proof fn lemma_translation_round_trip(s: AppState)
    ensures
        !exiting(s) && s != AppState::HiddenTranslating ==> visible(translating(s)) == visible(s),
        !exiting(s) && s != AppState::HiddenTranslating ==> visible(finished(translating(s)))
            == visible(s),
        (s == AppState::Hidden || s == AppState::VisibleIdle) ==> finished(translating(s)) == s,
{
}

/// A quit during a translation waits for it, and the end of that
/// translation ends the application.
pub proof fn lemma_quit_waits_for_translation()
    ensures
        quitting(true) == AppState::CancellingThenExit,
        finished(quitting(true)) == AppState::Exiting,
        quitting(false) == AppState::Exiting,
{
}

/// Once the input, the language and the model are all present, a request
/// is refused only for its preset, with "Select a preset.", and that
/// happens exactly when no preset anywhere in the list (the last one
/// included) has the id.
pub proof fn lemma_preset_refusal_exact(
    c: AppConfigView,
    input: Seq<char>,
    language: Seq<char>,
    preset_id: Seq<char>,
)
    requires
        !is_blank(input),
        !is_blank(language),
        !is_blank(c.provider.model_name),
    ensures
        request_refusal(c, input, language, preset_id) is Some ==> request_refusal(
            c,
            input,
            language,
            preset_id,
        ) == Some("Select a preset."@),
        request_refusal(c, input, language, preset_id) is None <==> exists|i: int|
            0 <= i < c.presets.len() && #[trigger] c.presets[i].id == preset_id,
        c.presets.len() > 0 && c.presets[c.presets.len() - 1].id == preset_id ==> request_refusal(
            c,
            input,
            language,
            preset_id,
        ) is None,
{
    if c.presets.len() > 0 && c.presets[c.presets.len() - 1].id == preset_id {
        assert(c.presets[c.presets.len() - 1].id == preset_id);
    }
}

/// Opening the settings shows them, and the window with them, from every
/// state but the two that end the application, which it leaves alone.
pub proof fn lemma_settings_open_unless_exiting(s: AppState)
    ensures
        !exiting(s) ==> with_settings(s) == AppState::SettingsOpen,
        !exiting(s) ==> visible(with_settings(s)),
        exiting(s) ==> with_settings(s) == s,
{
}

/// A translation is running in this state.
pub open spec fn runs_translation(s: AppState) -> bool {
    s == AppState::VisibleTranslating || s == AppState::HiddenTranslating || s
        == AppState::CancellingThenExit
}

/// Showing, hiding and toggling the window never start or stop a
/// translation.
pub proof fn lemma_window_commands_keep_translation(s: AppState)
    ensures
        runs_translation(shown(s)) == runs_translation(s),
        runs_translation(hidden(s)) == runs_translation(s),
        runs_translation(toggled(s)) == runs_translation(s),
{
}

/// A translation begun while the application is not ending runs, and the
/// window keeps its visibility (except that a second request behind a
/// hidden window shows it). Finishing stops the translation, keeps the
/// window's visibility, and turns a waiting quit into the end.
pub proof fn lemma_translation_states(s: AppState)
    ensures
        !exiting(s) ==> runs_translation(translating(s)) && !exiting(translating(s)),
        !exiting(s) && s != AppState::HiddenTranslating ==> visible(translating(s)) == visible(s),
        !runs_translation(finished(s)),
        !exiting(s) ==> visible(finished(s)) == visible(s) && !exiting(finished(s)),
        s == AppState::CancellingThenExit ==> finished(s) == AppState::Exiting,
        !runs_translation(s) ==> finished(s) == s,
{
}

/// A text in which the character does not occur holds no text that has it.
proof fn lemma_absent_char_blocks(hay: Seq<char>, needle: Seq<char>, k: int)
    requires
        0 <= k < needle.len(),
        forall|i: int| 0 <= i < hay.len() ==> hay[i] != needle[k],
    ensures
        !contains_seq(hay, needle),
{
    if contains_seq(hay, needle) {
        let j = choose|j: int| crate::text::occurs_at(hay, needle, j);
        assert(hay.subrange(j, j + needle.len())[k] == needle[k]);
    }
}

/// A text in which a character of the needle occurs only at `pos`, and the
/// needle's neighbouring character does not fit there, holds no needle.
proof fn lemma_single_char_blocks(hay: Seq<char>, needle: Seq<char>, k: int, pos: int, k2: int)
    requires
        0 <= k < needle.len(),
        0 <= k2 < needle.len(),
        forall|i: int| 0 <= i < hay.len() && hay[i] == needle[k] ==> i == pos,
        0 <= pos - k + k2 < hay.len() ==> hay[pos - k + k2] != needle[k2],
    ensures
        !contains_seq(hay, needle),
{
    if contains_seq(hay, needle) {
        let j = choose|j: int| crate::text::occurs_at(hay, needle, j);
        assert(hay.subrange(j, j + needle.len())[k] == needle[k]);
        assert(hay[j + k] == needle[k]);
        assert(hay.subrange(j, j + needle.len())[k2] == needle[k2]);
    }
}

/// Failures that name 403 or 404 are notified as critical, all others as
/// normal.
pub proof fn lemma_failure_urgency(kind: LlmErrorKind)
    ensures
        urgency_for(provider_text(kind)) == if kind == LlmErrorKind::UnauthorizedOrForbidden
            || kind == LlmErrorKind::NotFound {
            Urgency::Critical
        } else {
            Urgency::Normal
        },
{
    let m = provider_text(kind);
    reveal_strlit("403");
    reveal_strlit("404");
    match kind {
        LlmErrorKind::UnauthorizedOrForbidden => {
            reveal_strlit("Provider returned 403. Check API key and model permissions.");
            assert(crate::text::occurs_at(m, "403"@, 18)) by {
                assert(m.subrange(18, 21) =~= "403"@);
            }
        },
        LlmErrorKind::NotFound => {
            reveal_strlit("Provider returned 404. Check base URL and model name.");
            assert(crate::text::occurs_at(m, "404"@, 18)) by {
                assert(m.subrange(18, 21) =~= "404"@);
            }
            assert forall|i: int| 0 <= i < m.len() && m[i] == '0' implies i == 19 by {}
            lemma_single_char_blocks(m, "403"@, 1, 19, 2);
        },
        _ => {
            match kind {
                LlmErrorKind::RateLimited => reveal_strlit("Provider returned 429. Try again later."),
                LlmErrorKind::ProviderOverloaded => reveal_strlit(
                    "Provider returned 529. Try again later.",
                ),
                LlmErrorKind::ServerError => reveal_strlit(
                    "Provider returned a server error. Try again later.",
                ),
                LlmErrorKind::Timeout => reveal_strlit("Request timed out. Try again later."),
                LlmErrorKind::Network => reveal_strlit(
                    "Network error. Check your connection and provider URL.",
                ),
                LlmErrorKind::InvalidResponse => reveal_strlit(
                    "Provider returned an invalid response.",
                ),
                _ => reveal_strlit("Model name is not configured. Open Settings."),
            }
            assert forall|i: int| 0 <= i < m.len() implies m[i] != '0' by {}
            lemma_absent_char_blocks(m, "403"@, 1);
            lemma_absent_char_blocks(m, "404"@, 1);
        },
    }
}

} // verus!
