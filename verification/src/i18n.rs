//! The interface language: the user's choice, its resolution against the
//! system language, and the texts of each language.

use vstd::prelude::*;

use crate::config::{target_host, RewriteTarget};

verus! {

/// The interface language that the user chose.
#[derive(Debug, Clone, Copy, PartialEq, Eq, Structural)]
pub enum UiLanguage {
    /// Follow the language of the Windows user interface.
    Auto,
    Ja,
    En,
}

/// The interface language that is shown.
#[derive(Debug, Clone, Copy, PartialEq, Eq, Structural)]
pub enum ResolvedLanguage {
    Ja,
    En,
}

/// The texts of the interface.
#[derive(Debug, Clone, Copy)]
pub struct Strings {
    pub settings_title: &'static str,
    pub tray_open_settings: &'static str,
    pub tray_enabled: &'static str,
    pub tray_exit: &'static str,
    pub enable_checkbox: &'static str,
    pub target_label: &'static str,
    pub target_fx: &'static str,
    pub target_vx: &'static str,
    pub startup_checkbox: &'static str,
    pub language_label: &'static str,
    pub language_auto: &'static str,
    pub language_ja: &'static str,
    pub language_en: &'static str,
    pub close_button: &'static str,
}

/// The primary language of a Windows language identifier is Japanese
/// (`LANG_JAPANESE`, 0x11, in the low ten bits).
pub open spec fn is_japanese_language_id(language_id: u16) -> bool {
    language_id % 0x400 == 0x11
}

/// The language shown for a Windows user-interface language identifier:
/// Japanese for Japanese, English for everything else.
pub open spec fn system_language(language_id: u16) -> ResolvedLanguage {
    if is_japanese_language_id(language_id) {
        ResolvedLanguage::Ja
    } else {
        ResolvedLanguage::En
    }
}

/// The language shown for a choice, on a system whose user-interface
/// language has the identifier `language_id`.
pub open spec fn resolved_language(language: UiLanguage, language_id: u16) -> ResolvedLanguage {
    match language {
        UiLanguage::Auto => system_language(language_id),
        UiLanguage::Ja => ResolvedLanguage::Ja,
        UiLanguage::En => ResolvedLanguage::En,
    }
}

/// Whether the primary language of `language_id` is Japanese.
pub fn is_japanese_ui_language(language_id: u16) -> (res: bool)
    ensures
        res == is_japanese_language_id(language_id),
{
    assert(language_id & 0x03ff == language_id % 0x400) by (bit_vector);
    language_id & 0x03ff == 0x0011
}

/// The language shown for the Windows user-interface language
/// `language_id`.
pub fn detect_system_language(language_id: u16) -> (res: ResolvedLanguage)
    ensures
        res == system_language(language_id),
{
    if is_japanese_ui_language(language_id) {
        ResolvedLanguage::Ja
    } else {
        ResolvedLanguage::En
    }
}

/// The language shown for the choice `language`, where the Windows
/// user-interface language is `language_id`.
pub fn resolve_language(language: UiLanguage, language_id: u16) -> (res: ResolvedLanguage)
    ensures
        res == resolved_language(language, language_id),
{
    match language {
        UiLanguage::Auto => detect_system_language(language_id),
        UiLanguage::Ja => ResolvedLanguage::Ja,
        UiLanguage::En => ResolvedLanguage::En,
    }
}

/// The Japanese texts.
pub open spec fn ja_strings() -> Strings {
    Strings {
        settings_title: "fix-x 設定",
        tray_open_settings: "設定を開く",
        tray_enabled: "有効",
        tray_exit: "終了",
        enable_checkbox: "自動変換を有効にする",
        target_label: "変換先",
        target_fx: "fxtwitter.com を使う",
        target_vx: "vxtwitter.com を使う",
        startup_checkbox: "Windows 起動時に自動起動する",
        language_label: "表示言語",
        language_auto: "自動",
        language_ja: "日本語",
        language_en: "English",
        close_button: "閉じる",
    }
}

/// The English texts.
pub open spec fn en_strings() -> Strings {
    Strings {
        settings_title: "fix-x Settings",
        tray_open_settings: "Open Settings",
        tray_enabled: "Enabled",
        tray_exit: "Exit",
        enable_checkbox: "Enable automatic rewrite",
        target_label: "Rewrite target",
        target_fx: "Use fxtwitter.com",
        target_vx: "Use vxtwitter.com",
        startup_checkbox: "Launch on Windows startup",
        language_label: "Language",
        language_auto: "Auto",
        language_ja: "Japanese",
        language_en: "English",
        close_button: "Close",
    }
}

/// The texts of a language.
pub open spec fn strings_of(language: ResolvedLanguage) -> Strings {
    match language {
        ResolvedLanguage::Ja => ja_strings(),
        ResolvedLanguage::En => en_strings(),
    }
}

/// The texts of the language `language`.
pub fn strings_for(language: ResolvedLanguage) -> (res: Strings)
    ensures
        res == strings_of(language),
{
    match language {
        ResolvedLanguage::Ja => Strings {
            settings_title: "fix-x 設定",
            tray_open_settings: "設定を開く",
            tray_enabled: "有効",
            tray_exit: "終了",
            enable_checkbox: "自動変換を有効にする",
            target_label: "変換先",
            target_fx: "fxtwitter.com を使う",
            target_vx: "vxtwitter.com を使う",
            startup_checkbox: "Windows 起動時に自動起動する",
            language_label: "表示言語",
            language_auto: "自動",
            language_ja: "日本語",
            language_en: "English",
            close_button: "閉じる",
        },
        ResolvedLanguage::En => Strings {
            settings_title: "fix-x Settings",
            tray_open_settings: "Open Settings",
            tray_enabled: "Enabled",
            tray_exit: "Exit",
            enable_checkbox: "Enable automatic rewrite",
            target_label: "Rewrite target",
            target_fx: "Use fxtwitter.com",
            target_vx: "Use vxtwitter.com",
            startup_checkbox: "Launch on Windows startup",
            language_label: "Language",
            language_auto: "Auto",
            language_ja: "Japanese",
            language_en: "English",
            close_button: "Close",
        },
    }
}

/// The texts shown for the choice `language`, where the Windows
/// user-interface language is `language_id`.
pub fn strings(language: UiLanguage, language_id: u16) -> (res: Strings)
    ensures
        res == strings_of(resolved_language(language, language_id)),
{
    strings_for(resolve_language(language, language_id))
}


/// A fixed choice is shown as chosen; `Auto` follows the system: Japanese
/// exactly when the low ten bits of the language identifier are
/// `LANG_JAPANESE` (0x11), English otherwise.
pub proof fn law_language_resolution(language: UiLanguage, language_id: u16)
    ensures
        language == UiLanguage::Ja ==> resolved_language(language, language_id)
            == ResolvedLanguage::Ja,
        language == UiLanguage::En ==> resolved_language(language, language_id)
            == ResolvedLanguage::En,
        language == UiLanguage::Auto ==> (resolved_language(language, language_id)
            == ResolvedLanguage::Ja <==> language_id % 0x400 == 0x11),
        language == UiLanguage::Auto && language_id % 0x400 != 0x11 ==> resolved_language(
            language,
            language_id,
        ) == ResolvedLanguage::En,
{
}

/// The texts of the two languages differ in every item but the name of the
/// English language, which both show as `English`.
pub proof fn law_languages_differ()
    ensures
        ({
            let ja = strings_of(ResolvedLanguage::Ja);
            let en = strings_of(ResolvedLanguage::En);
            &&& ja.settings_title@ != en.settings_title@
            &&& ja.tray_open_settings@ != en.tray_open_settings@
            &&& ja.tray_enabled@ != en.tray_enabled@
            &&& ja.tray_exit@ != en.tray_exit@
            &&& ja.enable_checkbox@ != en.enable_checkbox@
            &&& ja.target_label@ != en.target_label@
            &&& ja.target_fx@ != en.target_fx@
            &&& ja.target_vx@ != en.target_vx@
            &&& ja.startup_checkbox@ != en.startup_checkbox@
            &&& ja.language_label@ != en.language_label@
            &&& ja.language_auto@ != en.language_auto@
            &&& ja.language_ja@ != en.language_ja@
            &&& ja.language_en@ == en.language_en@
            &&& ja.close_button@ != en.close_button@
        }),
{
    let ja = strings_of(ResolvedLanguage::Ja);
    let en = strings_of(ResolvedLanguage::En);
    reveal_strlit("fix-x 設定");
    reveal_strlit("fix-x Settings");
    assert(ja.settings_title@[6] != en.settings_title@[6]);
    reveal_strlit("設定を開く");
    reveal_strlit("Open Settings");
    assert(ja.tray_open_settings@[0] != en.tray_open_settings@[0]);
    reveal_strlit("有効");
    reveal_strlit("Enabled");
    assert(ja.tray_enabled@[0] != en.tray_enabled@[0]);
    reveal_strlit("終了");
    reveal_strlit("Exit");
    assert(ja.tray_exit@[0] != en.tray_exit@[0]);
    reveal_strlit("自動変換を有効にする");
    reveal_strlit("Enable automatic rewrite");
    assert(ja.enable_checkbox@[0] != en.enable_checkbox@[0]);
    reveal_strlit("変換先");
    reveal_strlit("Rewrite target");
    assert(ja.target_label@[0] != en.target_label@[0]);
    reveal_strlit("fxtwitter.com を使う");
    reveal_strlit("Use fxtwitter.com");
    assert(ja.target_fx@[0] != en.target_fx@[0]);
    reveal_strlit("vxtwitter.com を使う");
    reveal_strlit("Use vxtwitter.com");
    assert(ja.target_vx@[0] != en.target_vx@[0]);
    reveal_strlit("Windows 起動時に自動起動する");
    reveal_strlit("Launch on Windows startup");
    assert(ja.startup_checkbox@[0] != en.startup_checkbox@[0]);
    reveal_strlit("表示言語");
    reveal_strlit("Language");
    assert(ja.language_label@[0] != en.language_label@[0]);
    reveal_strlit("自動");
    reveal_strlit("Auto");
    assert(ja.language_auto@[0] != en.language_auto@[0]);
    reveal_strlit("日本語");
    reveal_strlit("Japanese");
    assert(ja.language_ja@[0] != en.language_ja@[0]);
    reveal_strlit("閉じる");
    reveal_strlit("Close");
    assert(ja.close_button@[0] != en.close_button@[0]);
}

/// `needle` occurs in `text`.
pub open spec fn contains_text(text: Seq<char>, needle: Seq<char>) -> bool {
    exists|i: int|
        0 <= i && i + needle.len() <= text.len() && #[trigger] text.subrange(i, i + needle.len())
            == needle
}

/// In every language, the label of each rewrite target names that target's
/// host and not the other's, so the two radio buttons read differently.
pub proof fn law_target_labels_name_their_hosts(language: ResolvedLanguage)
    ensures
        contains_text(strings_of(language).target_fx@, target_host(RewriteTarget::Fx)),
        contains_text(strings_of(language).target_vx@, target_host(RewriteTarget::Vx)),
        !contains_text(strings_of(language).target_fx@, target_host(RewriteTarget::Vx)),
        !contains_text(strings_of(language).target_vx@, target_host(RewriteTarget::Fx)),
        strings_of(language).target_fx@ != strings_of(language).target_vx@,
{
    let fx = target_host(RewriteTarget::Fx);
    let vx = target_host(RewriteTarget::Vx);
    reveal_strlit("fxtwitter.com");
    reveal_strlit("vxtwitter.com");
    reveal_strlit("fxtwitter.com を使う");
    reveal_strlit("vxtwitter.com を使う");
    reveal_strlit("Use fxtwitter.com");
    reveal_strlit("Use vxtwitter.com");
    let f = strings_of(language).target_fx@;
    let v = strings_of(language).target_vx@;
    let at: int = match language {
        ResolvedLanguage::Ja => 0,
        ResolvedLanguage::En => 4,
    };
    assert(f.subrange(at, at + fx.len()) =~= fx);
    assert(v.subrange(at, at + vx.len()) =~= vx);
    // Every occurrence of a host would have to start at the one `x` of the label.
    assert forall|i: int| 0 <= i && i + vx.len() <= f.len() implies #[trigger] f.subrange(
        i,
        i + vx.len(),
    ) != vx by {
        if i == at {
            assert(f.subrange(i, i + vx.len())[0] != vx[0]);
        } else {
            assert(f.subrange(i, i + vx.len())[1] == f[i + 1]);
            assert(vx[1] == 'x');
            assert(f.subrange(i, i + vx.len())[1] != vx[1] || f.subrange(i, i + vx.len())[0]
                != vx[0]);
        }
    }
    assert forall|i: int| 0 <= i && i + fx.len() <= v.len() implies #[trigger] v.subrange(
        i,
        i + fx.len(),
    ) != fx by {
        if i == at {
            assert(v.subrange(i, i + fx.len())[0] != fx[0]);
        } else {
            assert(v.subrange(i, i + fx.len())[1] == v[i + 1]);
            assert(fx[1] == 'x');
            assert(v.subrange(i, i + fx.len())[1] != fx[1] || v.subrange(i, i + fx.len())[0]
                != fx[0]);
        }
    }
    assert(f[at] != v[at]);
}

} // verus!
