use verba::app_runtime::TranslationOutcome;
use verba::gui::main_window::{outcome_display, OutcomeDisplay};
use verba::gui::preset_editor::can_delete_row;
use verba::gui::main_window::translate_click_refusal;
use verba::gui::preset_editor::slug_from_lowered;
use verba::{
    config::{AppConfig, Preset},
    gui::{
        actions::GuiAction,
        main_window::{selected_preset_index, theme_prefers_dark},
        preset_editor::{collect_rows, slugify, PresetEditorModel},
        settings_dialog::{api_key_edit_from_text, ApiKeyEdit, SettingsDraft},
    },
};

#[test]
fn slugs_keep_letters_and_digits() {
    assert_eq!(slugify("Quick Notes").as_deref(), Some("quick-notes"));
    assert_eq!(slugify("  --Hello,  World!! ").as_deref(), Some("hello-world"));
    assert_eq!(slugify("Área 51").as_deref(), Some("rea-51"));
    assert_eq!(slugify("\u{212A}elvin").as_deref(), Some("kelvin"));
    assert_eq!(slugify("!!!"), None);
    assert_eq!(slugify(""), None);
}

#[test]
fn added_presets_get_fresh_ids() {
    let mut editor = PresetEditorModel::new(AppConfig::default().presets);
    editor.add_preset(" Precise ", " Again. ").unwrap();
    editor.add_preset("precise", "Third.").unwrap();
    let ids: Vec<_> = editor.presets().iter().map(|p| p.id.clone()).collect();
    assert_eq!(ids, ["precise", "natural", "formal", "precise-2", "precise-3"]);
    let added = &editor.presets()[3];
    assert_eq!(added.name, "Precise");
    assert_eq!(added.instruction, "Again.");
}

#[test]
fn names_without_slug_get_uuid_ids() {
    let mut editor = PresetEditorModel::new(AppConfig::default().presets);
    editor.add_preset("???", "Style.").unwrap();
    let id = &editor.presets().last().unwrap().id;
    assert_eq!(id.len(), 36);
    assert_eq!(id.matches('-').count(), 4);
}

#[test]
fn deleting_unknown_id_changes_nothing() {
    let mut editor = PresetEditorModel::new(AppConfig::default().presets);
    assert_eq!(editor.delete_preset("missing").unwrap(), false);
    assert_eq!(editor.presets().len(), 3);
    let with = editor
        .clone()
        .with_added_preset("Extra", "More.")
        .expect("preset should be added");
    assert_eq!(with.into_presets().len(), 4);
}

#[test]
fn collected_rows_are_trimmed_and_checked() {
    let rows = vec![
        Preset {
            id: "a".to_string(),
            name: "  First ".to_string(),
            instruction: " One. ".to_string(),
        },
        Preset {
            id: "b".to_string(),
            name: "Second".to_string(),
            instruction: "Two.".to_string(),
        },
    ];
    let presets = collect_rows(&rows).unwrap();
    assert_eq!(presets[0].name, "First");
    assert_eq!(presets[0].instruction, "One.");

    let mut bad = rows.clone();
    bad[1].name = " first".to_string();
    let err = collect_rows(&bad).unwrap_err();
    assert!(err.message().contains("duplicate preset name `first`"));
}

#[test]
fn settings_draft_produces_normalized_config() {
    let mut draft = SettingsDraft::from_config(&AppConfig::default());
    assert_eq!(draft.api_key, ApiKeyEdit::Unchanged);
    draft.base_url = " https://example.com/api/ ".to_string();
    draft.model_name = " gpt-test ".to_string();
    let draft = draft.with_api_key(ApiKeyEdit::Clear);
    let config = draft.validated_config(AppConfig::default()).unwrap();
    assert_eq!(config.provider.base_url, "https://example.com/api");
    assert_eq!(config.provider.model_name, "gpt-test");

    let mut blank = draft.clone();
    blank.base_url = "  ".to_string();
    let err = blank.validated_config(AppConfig::default()).unwrap_err();
    assert!(err.message().contains("LLM Provider base url is required"));
}

#[test]
fn api_key_field_text_is_read() {
    assert_eq!(api_key_edit_from_text("   "), ApiKeyEdit::Unchanged);
    assert_eq!(
        api_key_edit_from_text(" sk-1 "),
        ApiKeyEdit::Replace("sk-1".to_string())
    );
}

#[test]
fn preset_index_follows_last_used_id() {
    let mut config = AppConfig::default();
    config.ui.last_preset_id = "formal".to_string();
    assert_eq!(selected_preset_index(&config), Some(2));
    config.presets.clear();
    assert_eq!(selected_preset_index(&config), None);
}

#[test]
fn dark_themes_are_recognized() {
    assert!(theme_prefers_dark(true, None));
    assert!(theme_prefers_dark(false, Some("Adwaita-DARK")));
    assert!(!theme_prefers_dark(false, Some("Adwaita")));
    assert!(!theme_prefers_dark(false, None));
}

#[test]
fn actions_have_window_names() {
    assert_eq!(GuiAction::Translate.detailed_action_name(), "win.translate");
    assert_eq!(GuiAction::CopyResult.action_name(), "copy-result");
    assert!(verba::gui::actions::accelerators_for_action(GuiAction::OpenSettings).is_empty());
}

#[test]
fn slugs_of_lowered_text_join_runs_with_one_dash() {
    let chars = |s: &str| s.chars().collect::<Vec<char>>();
    assert_eq!(slug_from_lowered(&chars("--a  b--c__")).as_deref(), Some("a-b-c"));
    assert_eq!(slug_from_lowered(&chars("Upper")).as_deref(), Some("Upper"));
    assert_eq!(slug_from_lowered(&chars("é!")), None);
}

#[test]
fn translate_clicks_are_refused_in_order() {
    assert_eq!(
        translate_click_refusal("  ", "", false),
        Some("Enter text to translate.")
    );
    assert_eq!(
        translate_click_refusal("Hello", "\t", false),
        Some("Enter target language.")
    );
    assert_eq!(
        translate_click_refusal("Hello", "German", false),
        Some("Select a preset.")
    );
    assert_eq!(translate_click_refusal("Hello", "German", true), None);
}

#[test]
fn finished_translations_show_text_or_message() {
    assert_eq!(
        outcome_display(&TranslationOutcome::success("Hallo")),
        OutcomeDisplay::Translation("Hallo".to_string())
    );
    assert_eq!(
        outcome_display(&TranslationOutcome::failure("Provider returned 529. Try again later.")),
        OutcomeDisplay::Status("Provider returned 529. Try again later.".to_string())
    );
    let empty = TranslationOutcome {
        translated_text: None,
        message: None,
    };
    assert_eq!(outcome_display(&empty), OutcomeDisplay::Unchanged);
}

#[test]
fn the_last_preset_row_cannot_be_deleted() {
    assert!(!can_delete_row(0));
    assert!(!can_delete_row(1));
    assert!(can_delete_row(2));
}
