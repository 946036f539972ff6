use fix_x::installer::{
    default_launch_after_install, install_completed_message, install_failed_message, localized,
    path_error_message, ps_single_quote, shortcut_script, should_launch, InstallOptions,
    InstallerFlow,
};

fn args(items: &[&str]) -> Vec<String> {
    items.iter().map(|s| s.to_string()).collect()
}

#[test]
fn options_from_command_line() {
    assert_eq!(
        InstallOptions::from_args(&args(&["setup.exe"])),
        InstallOptions { silent: false, no_launch: false }
    );
    assert_eq!(
        InstallOptions::from_args(&args(&["setup.exe", "--silent", "--other", "--no-launch"])),
        InstallOptions { silent: true, no_launch: true }
    );
    assert_eq!(
        InstallOptions::from_args(&args(&["--silent"])),
        InstallOptions { silent: false, no_launch: false }
    );
    assert_eq!(
        InstallOptions::from_args(&args(&[])),
        InstallOptions { silent: false, no_launch: false }
    );
    assert_eq!(
        InstallOptions::from_args(&args(&["setup.exe", "--SILENT", "--no-launch"])),
        InstallOptions { silent: false, no_launch: true }
    );
}

#[test]
fn launching_after_install() {
    assert!(default_launch_after_install());
    let plain = InstallOptions { silent: false, no_launch: false };
    let no_launch = InstallOptions { silent: true, no_launch: true };
    assert!(should_launch(&plain, true));
    assert!(!should_launch(&plain, false));
    assert!(!should_launch(&no_launch, true));
}

#[test]
fn one_installation_at_a_time() {
    let options = InstallOptions { silent: false, no_launch: false };
    let mut flow = InstallerFlow::new();
    assert!(!flow.is_installing());
    assert!(flow.on_cancel_clicked());
    assert_eq!(flow.on_install_clicked(&options, true), Some(true));
    assert!(flow.is_installing());
    assert_eq!(flow.on_install_clicked(&options, true), None);
    assert!(!flow.on_cancel_clicked());
    assert!(!flow.on_install_finished(false));
    assert!(!flow.is_installing());
    assert_eq!(flow.on_install_clicked(&options, false), Some(false));
    assert!(flow.on_install_finished(true));
    let no_launch = InstallOptions { silent: false, no_launch: true };
    assert_eq!(InstallerFlow::new().on_install_clicked(&no_launch, true), Some(false));
}

#[test]
fn single_quotes_are_doubled() {
    assert_eq!(ps_single_quote("C:\\Users\\o'brien"), "C:\\Users\\o''brien");
    assert_eq!(ps_single_quote("''"), "''''");
    assert_eq!(ps_single_quote(""), "");
    assert_eq!(ps_single_quote("plain"), "plain");
}

#[test]
fn shortcut_script_text() {
    let script = shortcut_script("A'.lnk", "U.lnk", "T.exe", "W", "I.ico", "S.ps1");
    assert_eq!(
        script,
        "$w = New-Object -ComObject WScript.Shell; \
$app = $w.CreateShortcut('A''.lnk'); \
$app.TargetPath = 'T.exe'; \
$app.WorkingDirectory = 'W'; \
$app.IconLocation = 'I.ico'; \
$app.Save(); \
$uninstall = $w.CreateShortcut('U.lnk'); \
$uninstall.TargetPath = 'powershell.exe'; \
$uninstall.WorkingDirectory = 'W'; \
$uninstall.IconLocation = 'I.ico'; \
$uninstall.Arguments = '-NoProfile -ExecutionPolicy Bypass -File \"S.ps1\"'; \
$uninstall.Save()"
    );
}

#[test]
fn installer_messages() {
    assert_eq!(
        path_error_message("write icon", "C:\\x\\fix-x.ico", "denied"),
        "write icon: C:\\x\\fix-x.ico\ndenied"
    );
    assert_eq!(localized("はい", "yes", 0x0411), "はい");
    assert_eq!(localized("はい", "yes", 0x0409), "yes");
    assert_eq!(
        install_failed_message("boom", 0x0409),
        "Installation failed.\n\nboom"
    );
    assert_eq!(
        install_failed_message("boom", 0x0411),
        "インストールに失敗しました。\n\nboom"
    );
    assert_eq!(
        install_completed_message("C:\\fix-x", 0x0409),
        "Installation completed.\nC:\\fix-x"
    );
}

#[test]
fn quoted_paths_read_back() {
    for path in ["C:\\Users\\o'brien\\fix-x.exe", "'", "''x'", "plain"] {
        let quoted = ps_single_quote(path);
        assert_eq!(quoted.replace("''", "'"), path);
        assert_eq!(quoted.matches('\'').count() % 2, 0);
    }
}
