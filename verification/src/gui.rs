//! The decisions of the tray icon, its menu and the settings window: which
//! command a click stands for, and what the controls show.

use vstd::prelude::*;

use crate::config::{AppConfig, RewriteTarget};
use crate::i18n::{Strings, UiLanguage};

verus! {

/// `BST_CHECKED`: the state of a checked box or selected radio button.
pub const BST_CHECKED: usize = 1;

/// `BST_UNCHECKED`.
pub const BST_UNCHECKED: usize = 0;

/// `BN_CLICKED`: the notification code of a clicked button.
pub const BN_CLICKED: u16 = 0;

/// `WM_LBUTTONUP`.
pub const WM_LBUTTONUP: u32 = 0x0202;

/// `WM_RBUTTONUP`.
pub const WM_RBUTTONUP: u32 = 0x0205;

/// `WM_CONTEXTMENU`.
pub const WM_CONTEXTMENU: u32 = 0x007b;

/// Tray menu item: open the settings window.
pub const ID_TRAY_OPEN_SETTINGS: usize = 100;

/// Tray menu item: switch rewriting on or off.
pub const ID_TRAY_TOGGLE_ENABLED: usize = 101;

/// Tray menu item: quit.
pub const ID_TRAY_EXIT: usize = 102;

/// Settings window control: the rewriting check box.
pub const ID_ENABLE_CHECKBOX: usize = 200;

/// Settings window control: the `fxtwitter.com` radio button.
pub const ID_TARGET_FX: usize = 201;

/// Settings window control: the `vxtwitter.com` radio button.
pub const ID_TARGET_VX: usize = 202;

/// Settings window control: the start-with-Windows check box.
pub const ID_STARTUP_CHECKBOX: usize = 203;

/// Settings window control: the close button.
pub const ID_CLOSE_BUTTON: usize = 204;

/// Settings window control: the automatic-language radio button.
pub const ID_LANGUAGE_AUTO: usize = 205;

/// Settings window control: the Japanese radio button.
pub const ID_LANGUAGE_JA: usize = 206;

/// Settings window control: the English radio button.
pub const ID_LANGUAGE_EN: usize = 207;

/// A command of the tray menu.
#[derive(Debug, Clone, Copy, PartialEq, Eq, Structural)]
pub enum TrayCommand {
    OpenSettings,
    ToggleEnabled,
    Exit,
}

/// The tray menu command with the identifier `command_id`.
pub open spec fn tray_command_of(command_id: usize) -> Option<TrayCommand> {
    if command_id == ID_TRAY_OPEN_SETTINGS {
        Some(TrayCommand::OpenSettings)
    } else if command_id == ID_TRAY_TOGGLE_ENABLED {
        Some(TrayCommand::ToggleEnabled)
    } else if command_id == ID_TRAY_EXIT {
        Some(TrayCommand::Exit)
    } else {
        None
    }
}

/// The tray menu command that a `WM_COMMAND` with identifier `command_id`
/// stands for.
pub fn tray_command(command_id: usize) -> (res: Option<TrayCommand>)
    ensures
        res == tray_command_of(command_id),
{
    if command_id == ID_TRAY_OPEN_SETTINGS {
        Some(TrayCommand::OpenSettings)
    } else if command_id == ID_TRAY_TOGGLE_ENABLED {
        Some(TrayCommand::ToggleEnabled)
    } else if command_id == ID_TRAY_EXIT {
        Some(TrayCommand::Exit)
    } else {
        None
    }
}

/// What a mouse event on the tray icon leads to.
#[derive(Debug, Clone, Copy, PartialEq, Eq, Structural)]
pub enum TrayIconAction {
    /// A left click opens the settings window.
    OpenSettings,
    /// A right click or the context-menu key shows the tray menu.
    ShowMenu,
    /// Anything else goes to the default window procedure.
    PassOn,
}

/// What the tray icon event `event` leads to.
pub open spec fn tray_icon_action_of(event: u32) -> TrayIconAction {
    if event == WM_LBUTTONUP {
        TrayIconAction::OpenSettings
    } else if event == WM_RBUTTONUP || event == WM_CONTEXTMENU {
        TrayIconAction::ShowMenu
    } else {
        TrayIconAction::PassOn
    }
}

/// What the tray icon event `event` (the mouse message the icon reports)
/// leads to.
pub fn tray_icon_action(event: u32) -> (res: TrayIconAction)
    ensures
        res == tray_icon_action_of(event),
{
    if event == WM_LBUTTONUP {
        TrayIconAction::OpenSettings
    } else if event == WM_RBUTTONUP || event == WM_CONTEXTMENU {
        TrayIconAction::ShowMenu
    } else {
        TrayIconAction::PassOn
    }
}

/// An item of the tray menu.
#[derive(Debug, Clone, Copy)]
pub struct TrayMenuItem {
    pub id: usize,
    pub text: &'static str,
    pub checked: bool,
}

/// The tray menu: open the settings, the rewriting switch (checked while
/// rewriting is on), and quit.
pub fn tray_menu_items(enabled: bool, strings: &Strings) -> (res: Vec<TrayMenuItem>)
    ensures
        res@.len() == 3,
        res@[0] == (TrayMenuItem {
            id: ID_TRAY_OPEN_SETTINGS,
            text: strings.tray_open_settings,
            checked: false,
        }),
        res@[1] == (TrayMenuItem {
            id: ID_TRAY_TOGGLE_ENABLED,
            text: strings.tray_enabled,
            checked: enabled,
        }),
        res@[2] == (TrayMenuItem { id: ID_TRAY_EXIT, text: strings.tray_exit, checked: false }),
{
    let mut res: Vec<TrayMenuItem> = Vec::new();
    res.push(
        TrayMenuItem { id: ID_TRAY_OPEN_SETTINGS, text: strings.tray_open_settings, checked: false },
    );
    res.push(TrayMenuItem { id: ID_TRAY_TOGGLE_ENABLED, text: strings.tray_enabled, checked: enabled });
    res.push(TrayMenuItem { id: ID_TRAY_EXIT, text: strings.tray_exit, checked: false });
    res
}

/// A command of the settings window.
#[derive(Debug, Clone, Copy, PartialEq, Eq, Structural)]
pub enum SettingsCommand {
    /// The rewriting check box was clicked: take its new state.
    EnableCheckboxClicked,
    /// A rewrite target was chosen.
    SetTarget(RewriteTarget),
    /// The start-with-Windows check box was clicked: take its new state.
    StartupCheckboxClicked,
    /// An interface language was chosen.
    SetLanguage(UiLanguage),
    /// The close button was clicked: hide the window.
    Hide,
}

/// The settings command of a click on the control `command_id`.
pub open spec fn settings_command_of(command_id: usize) -> Option<SettingsCommand> {
    if command_id == ID_ENABLE_CHECKBOX {
        Some(SettingsCommand::EnableCheckboxClicked)
    } else if command_id == ID_TARGET_FX {
        Some(SettingsCommand::SetTarget(RewriteTarget::Fx))
    } else if command_id == ID_TARGET_VX {
        Some(SettingsCommand::SetTarget(RewriteTarget::Vx))
    } else if command_id == ID_STARTUP_CHECKBOX {
        Some(SettingsCommand::StartupCheckboxClicked)
    } else if command_id == ID_LANGUAGE_AUTO {
        Some(SettingsCommand::SetLanguage(UiLanguage::Auto))
    } else if command_id == ID_LANGUAGE_JA {
        Some(SettingsCommand::SetLanguage(UiLanguage::Ja))
    } else if command_id == ID_LANGUAGE_EN {
        Some(SettingsCommand::SetLanguage(UiLanguage::En))
    } else if command_id == ID_CLOSE_BUTTON {
        Some(SettingsCommand::Hide)
    } else {
        None
    }
}

/// The settings command that a `WM_COMMAND` from the control `command_id`
/// with notification `notify_code` stands for: only clicks count.
pub fn settings_command(command_id: usize, notify_code: u16) -> (res: Option<SettingsCommand>)
    ensures
        res == (if notify_code == BN_CLICKED {
            settings_command_of(command_id)
        } else {
            None
        }),
{
    if notify_code != BN_CLICKED {
        None
    } else if command_id == ID_ENABLE_CHECKBOX {
        Some(SettingsCommand::EnableCheckboxClicked)
    } else if command_id == ID_TARGET_FX {
        Some(SettingsCommand::SetTarget(RewriteTarget::Fx))
    } else if command_id == ID_TARGET_VX {
        Some(SettingsCommand::SetTarget(RewriteTarget::Vx))
    } else if command_id == ID_STARTUP_CHECKBOX {
        Some(SettingsCommand::StartupCheckboxClicked)
    } else if command_id == ID_LANGUAGE_AUTO {
        Some(SettingsCommand::SetLanguage(UiLanguage::Auto))
    } else if command_id == ID_LANGUAGE_JA {
        Some(SettingsCommand::SetLanguage(UiLanguage::Ja))
    } else if command_id == ID_LANGUAGE_EN {
        Some(SettingsCommand::SetLanguage(UiLanguage::En))
    } else if command_id == ID_CLOSE_BUTTON {
        Some(SettingsCommand::Hide)
    } else {
        None
    }
}

/// The check state of each check box and radio button of the settings
/// window.
#[derive(Debug, Clone, Copy, PartialEq, Eq, Structural)]
pub struct CheckStates {
    pub enable_checkbox: usize,
    pub startup_checkbox: usize,
    pub fx_radio: usize,
    pub vx_radio: usize,
    pub language_auto_radio: usize,
    pub language_ja_radio: usize,
    pub language_en_radio: usize,
}

/// `BST_CHECKED` where `checked`, `BST_UNCHECKED` otherwise.
pub open spec fn check_state(checked: bool) -> usize {
    if checked {
        BST_CHECKED
    } else {
        BST_UNCHECKED
    }
}

/// `BST_CHECKED` where `checked`, `BST_UNCHECKED` otherwise.
pub fn check_state_of(checked: bool) -> (res: usize)
    ensures
        res == check_state(checked),
{
    if checked {
        BST_CHECKED
    } else {
        BST_UNCHECKED
    }
}

/// What the controls of the settings window show for the settings `config`
/// and the language choice `language`: one radio button of each group
/// selected, the one of the current choice.
pub fn check_states(config: &AppConfig, language: UiLanguage) -> (res: CheckStates)
    ensures
        res == (CheckStates {
            enable_checkbox: check_state(config.enabled),
            startup_checkbox: check_state(config.launch_on_startup),
            fx_radio: check_state(config.target == RewriteTarget::Fx),
            vx_radio: check_state(config.target == RewriteTarget::Vx),
            language_auto_radio: check_state(language == UiLanguage::Auto),
            language_ja_radio: check_state(language == UiLanguage::Ja),
            language_en_radio: check_state(language == UiLanguage::En),
        }),
{
    CheckStates {
        enable_checkbox: check_state_of(config.enabled),
        startup_checkbox: check_state_of(config.launch_on_startup),
        fx_radio: check_state_of(config.target == RewriteTarget::Fx),
        vx_radio: check_state_of(config.target == RewriteTarget::Vx),
        language_auto_radio: check_state_of(language == UiLanguage::Auto),
        language_ja_radio: check_state_of(language == UiLanguage::Ja),
        language_en_radio: check_state_of(language == UiLanguage::En),
    }
}

/// A shown check is `BST_CHECKED` (1), a cleared one `BST_UNCHECKED` (0).
pub proof fn law_check_state_values(checked: bool)
    ensures
        checked ==> check_state(checked) == 1,
        !checked ==> check_state(checked) == 0,
{
}

/// Different tray menu items stand for different commands, and every
/// command has an item.
pub proof fn law_tray_commands_distinct(a: usize, b: usize, command: TrayCommand)
    ensures
        tray_command_of(a) is Some && a != b ==> tray_command_of(a) != tray_command_of(b),
        exists|id: usize| tray_command_of(id) == Some(command),
{
    match command {
        TrayCommand::OpenSettings => assert(tray_command_of(ID_TRAY_OPEN_SETTINGS) == Some(command)),
        TrayCommand::ToggleEnabled => assert(tray_command_of(ID_TRAY_TOGGLE_ENABLED) == Some(command)),
        TrayCommand::Exit => assert(tray_command_of(ID_TRAY_EXIT) == Some(command)),
    }
}

/// Different controls of the settings window stand for different
/// commands, and every target and every language can be chosen.
pub proof fn law_settings_commands_distinct(
    a: usize,
    b: usize,
    target: RewriteTarget,
    language: UiLanguage,
)
    ensures
        settings_command_of(a) is Some && a != b ==> settings_command_of(a) != settings_command_of(b),
        exists|id: usize| settings_command_of(id) == Some(SettingsCommand::SetTarget(target)),
        exists|id: usize| settings_command_of(id) == Some(SettingsCommand::SetLanguage(language)),
{
    match target {
        RewriteTarget::Fx => assert(settings_command_of(ID_TARGET_FX) == Some(SettingsCommand::SetTarget(target))),
        RewriteTarget::Vx => assert(settings_command_of(ID_TARGET_VX) == Some(SettingsCommand::SetTarget(target))),
    }
    match language {
        UiLanguage::Auto => assert(settings_command_of(ID_LANGUAGE_AUTO) == Some(SettingsCommand::SetLanguage(language))),
        UiLanguage::Ja => assert(settings_command_of(ID_LANGUAGE_JA) == Some(SettingsCommand::SetLanguage(language))),
        UiLanguage::En => assert(settings_command_of(ID_LANGUAGE_EN) == Some(SettingsCommand::SetLanguage(language))),
    }
}

/// Of each radio group exactly one button is shown selected.
pub proof fn law_one_radio_per_group(config: AppConfig, language: UiLanguage)
    ensures
        check_state(config.target == RewriteTarget::Fx) + check_state(
            config.target == RewriteTarget::Vx,
        ) == BST_CHECKED,
        check_state(language == UiLanguage::Auto) + check_state(language == UiLanguage::Ja)
            + check_state(language == UiLanguage::En) == BST_CHECKED,
{
}

} // verus!
