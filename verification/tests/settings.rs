use std::collections::HashMap;

use fix_x::config::{AppConfig, RewriteTarget, StoredConfig};
use fix_x::gui::{
    check_states, settings_command, tray_command, tray_icon_action, tray_menu_items, CheckStates,
    SettingsCommand, TrayCommand, TrayIconAction,
};
use fix_x::i18n::{
    detect_system_language, resolve_language, strings, strings_for, ResolvedLanguage, UiLanguage,
};
use fix_x::startup::{quoted_command, sync_launch_on_startup, RunKeyUpdate, APP_NAME, RUN_KEY_PATH};

fn apply(store: &mut HashMap<String, String>, update: RunKeyUpdate) {
    match update {
        RunKeyUpdate::SetValue { name, value } => {
            store.insert(name, value);
        }
        RunKeyUpdate::DeleteValue { name } => {
            store.remove(&name);
        }
    }
}

#[test]
fn enabling_startup_writes_run_key_value() {
    let mut values: HashMap<String, String> = HashMap::new();
    let exe = "C:\\Program Files\\fix-x\\fix-x.exe";

    apply(&mut values, sync_launch_on_startup(true, exe));

    assert_eq!(
        values.get("fix-x").unwrap(),
        "\"C:\\Program Files\\fix-x\\fix-x.exe\""
    );
}

#[test]
fn disabling_startup_deletes_run_key_value() {
    let mut values: HashMap<String, String> = HashMap::new();
    values.insert("fix-x".into(), "value".into());

    apply(&mut values, sync_launch_on_startup(false, "C:\\fix-x.exe"));

    assert!(!values.contains_key("fix-x"));
}

#[test]
fn startup_names_and_quoting() {
    assert_eq!(APP_NAME, "fix-x");
    assert_eq!(RUN_KEY_PATH, "Software\\Microsoft\\Windows\\CurrentVersion\\Run");
    assert_eq!(quoted_command("C:\\a b\\c.exe"), "\"C:\\a b\\c.exe\"");
    assert_eq!(quoted_command(""), "\"\"");
    assert_eq!(
        sync_launch_on_startup(false, "C:\\x.exe"),
        RunKeyUpdate::DeleteValue { name: "fix-x".to_string() }
    );
}

#[test]
fn config_defaults_and_loading() {
    let default = AppConfig::default();
    assert_eq!(
        default,
        AppConfig { enabled: true, target: RewriteTarget::Fx, launch_on_startup: true }
    );
    let stored = AppConfig { enabled: false, target: RewriteTarget::Vx, launch_on_startup: false };
    assert_eq!(AppConfig::load(StoredConfig::Loaded(stored)), stored);
    assert_eq!(AppConfig::load(StoredConfig::Missing), default);
    assert_eq!(AppConfig::load(StoredConfig::Unreadable), default);
}

#[test]
fn target_hosts() {
    assert_eq!(RewriteTarget::Fx.host(), "fxtwitter.com");
    assert_eq!(RewriteTarget::Vx.host(), "vxtwitter.com");
}

#[test]
fn language_resolution() {
    assert_eq!(detect_system_language(0x0411), ResolvedLanguage::Ja);
    assert_eq!(detect_system_language(0x0011), ResolvedLanguage::Ja);
    assert_eq!(detect_system_language(0x0409), ResolvedLanguage::En);
    assert_eq!(detect_system_language(0x0404), ResolvedLanguage::En);
    assert_eq!(resolve_language(UiLanguage::Auto, 0x0411), ResolvedLanguage::Ja);
    assert_eq!(resolve_language(UiLanguage::Auto, 0x0809), ResolvedLanguage::En);
    assert_eq!(resolve_language(UiLanguage::Ja, 0x0409), ResolvedLanguage::Ja);
    assert_eq!(resolve_language(UiLanguage::En, 0x0411), ResolvedLanguage::En);
}

#[test]
fn texts_of_each_language() {
    let ja = strings_for(ResolvedLanguage::Ja);
    assert_eq!(ja.settings_title, "fix-x 設定");
    assert_eq!(ja.tray_exit, "終了");
    assert_eq!(ja.close_button, "閉じる");
    assert_eq!(ja.language_en, "English");
    let en = strings_for(ResolvedLanguage::En);
    assert_eq!(en.settings_title, "fix-x Settings");
    assert_eq!(en.tray_open_settings, "Open Settings");
    assert_eq!(en.language_ja, "Japanese");
    assert_eq!(strings(UiLanguage::Auto, 0x0411).settings_title, "fix-x 設定");
    assert_eq!(strings(UiLanguage::En, 0x0411).settings_title, "fix-x Settings");
}

#[test]
fn tray_commands_and_icon_events() {
    assert_eq!(tray_command(100), Some(TrayCommand::OpenSettings));
    assert_eq!(tray_command(101), Some(TrayCommand::ToggleEnabled));
    assert_eq!(tray_command(102), Some(TrayCommand::Exit));
    assert_eq!(tray_command(103), None);
    assert_eq!(tray_icon_action(0x0202), TrayIconAction::OpenSettings);
    assert_eq!(tray_icon_action(0x0205), TrayIconAction::ShowMenu);
    assert_eq!(tray_icon_action(0x007b), TrayIconAction::ShowMenu);
    assert_eq!(tray_icon_action(0x0201), TrayIconAction::PassOn);
}

#[test]
fn tray_menu_marks_rewriting_state() {
    let texts = strings_for(ResolvedLanguage::En);
    let items = tray_menu_items(true, &texts);
    assert_eq!(items.len(), 3);
    assert_eq!((items[0].id, items[0].text, items[0].checked), (100, "Open Settings", false));
    assert_eq!((items[1].id, items[1].text, items[1].checked), (101, "Enabled", true));
    assert_eq!((items[2].id, items[2].text, items[2].checked), (102, "Exit", false));
    assert!(!tray_menu_items(false, &texts)[1].checked);
}

#[test]
fn settings_window_commands() {
    assert_eq!(settings_command(200, 0), Some(SettingsCommand::EnableCheckboxClicked));
    assert_eq!(settings_command(201, 0), Some(SettingsCommand::SetTarget(RewriteTarget::Fx)));
    assert_eq!(settings_command(202, 0), Some(SettingsCommand::SetTarget(RewriteTarget::Vx)));
    assert_eq!(settings_command(203, 0), Some(SettingsCommand::StartupCheckboxClicked));
    assert_eq!(settings_command(204, 0), Some(SettingsCommand::Hide));
    assert_eq!(settings_command(205, 0), Some(SettingsCommand::SetLanguage(UiLanguage::Auto)));
    assert_eq!(settings_command(206, 0), Some(SettingsCommand::SetLanguage(UiLanguage::Ja)));
    assert_eq!(settings_command(207, 0), Some(SettingsCommand::SetLanguage(UiLanguage::En)));
    assert_eq!(settings_command(208, 0), None);
    assert_eq!(settings_command(200, 1), None);
}

#[test]
fn settings_controls_show_the_settings() {
    let config = AppConfig { enabled: true, target: RewriteTarget::Vx, launch_on_startup: false };
    assert_eq!(
        check_states(&config, UiLanguage::Ja),
        CheckStates {
            enable_checkbox: 1,
            startup_checkbox: 0,
            fx_radio: 0,
            vx_radio: 1,
            language_auto_radio: 0,
            language_ja_radio: 1,
            language_en_radio: 0,
        }
    );
    for target in [RewriteTarget::Fx, RewriteTarget::Vx] {
        for language in [UiLanguage::Auto, UiLanguage::Ja, UiLanguage::En] {
            let c = AppConfig { enabled: false, target, launch_on_startup: true };
            let s = check_states(&c, language);
            assert_eq!(s.fx_radio + s.vx_radio, 1);
            assert_eq!(s.language_auto_radio + s.language_ja_radio + s.language_en_radio, 1);
            assert_eq!((s.enable_checkbox, s.startup_checkbox), (0, 1));
        }
    }
}
