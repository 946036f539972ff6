//! The decisions of the installer: its command-line options, the state of
//! its window, the PowerShell script that makes the Start Menu shortcuts,
//! and its messages.

use vstd::prelude::*;

use crate::i18n::is_japanese_language_id;
use crate::i18n::is_japanese_ui_language;
use crate::text::{chars_of, push_char, text_eq};

verus! {

/// The installer's command-line options.
#[derive(Debug, Clone, Copy, PartialEq, Eq, Structural)]
pub struct InstallOptions {
    /// `--silent`: install without showing the window.
    pub silent: bool,
    /// `--no-launch`: never start the program after installing.
    pub no_launch: bool,
}

/// Some argument after the program name is `flag`.
pub open spec fn has_flag(args: Seq<Seq<char>>, flag: Seq<char>) -> bool {
    exists|i: int| 1 <= i < args.len() && args[i] == flag
}

impl InstallOptions {
    /// The options given by the command line `args`, whose first item is the
    /// program name; arguments other than the two flags are ignored.
    pub fn from_args(args: &Vec<String>) -> (res: InstallOptions)
        ensures
            res.silent == has_flag(args@.map_values(|a: String| a@), "--silent"@),
            res.no_launch == has_flag(args@.map_values(|a: String| a@), "--no-launch"@),
    {
        let ghost av = args@.map_values(|a: String| a@);
        let mut options = InstallOptions { silent: false, no_launch: false };
        let mut k: usize = 1;
        while k < args.len()
            invariant
                av == args@.map_values(|a: String| a@),
                1 <= k <= args@.len() || (k == 1 && args@.len() == 0),
                options.silent == (exists|i: int| 1 <= i < k && av[i] == "--silent"@),
                options.no_launch == (exists|i: int| 1 <= i < k && av[i] == "--no-launch"@),
            decreases args.len() - k,
        {
            assert(av[k as int] == args@[k as int]@);
            proof {
                reveal_strlit("--silent");
                reveal_strlit("--no-launch");
            }
            if text_eq(args[k].as_str(), "--silent") {
                options.silent = true;
            } else if text_eq(args[k].as_str(), "--no-launch") {
                options.no_launch = true;
            }
            k = k + 1;
        }
        options
    }
}

/// The program name, the first item of the command line, is never taken
/// for a flag.
pub proof fn law_program_name_not_a_flag(args: Seq<Seq<char>>, name: Seq<char>, flag: Seq<char>)
    requires
        args.len() > 0,
    ensures
        has_flag(args.update(0, name), flag) == has_flag(args, flag),
        has_flag(seq![flag], flag) == false,
        has_flag(args.push(flag), flag),
{
    let u = args.update(0, name);
    if has_flag(args, flag) {
        let i = choose|i: int| 1 <= i < args.len() && args[i] == flag;
        assert(u[i] == flag);
    }
    if has_flag(u, flag) {
        let i = choose|i: int| 1 <= i < u.len() && u[i] == flag;
        assert(args[i] == flag);
    }
    assert(args.push(flag)[args.len() as int] == flag);
}

/// Whether the program is started after installing, where none of the
/// window's choices says otherwise.
pub fn default_launch_after_install() -> (res: bool)
    ensures
        res,
{
    true
}

/// Whether the program is started after installing, where starting it was
/// `requested`: `--no-launch` always wins.
pub fn should_launch(options: &InstallOptions, requested: bool) -> (res: bool)
    ensures
        res == (requested && !options.no_launch),
{
    requested && !options.no_launch
}

/// What a click on the install button leads to, while an installation is
/// running (`installing`) or not: whether one runs afterwards, and, where
/// one starts now, whether to start the program when it is done.
pub open spec fn install_click_step(
    installing: bool,
    options: InstallOptions,
    launch_checked: bool,
) -> (bool, Option<bool>) {
    if installing {
        (true, None)
    } else {
        (true, Some(launch_checked && !options.no_launch))
    }
}

/// The state of the installer window: whether an installation is running.
pub struct InstallerFlow {
    installing: bool,
}

impl InstallerFlow {
    /// Whether an installation is running.
    pub closed spec fn busy(&self) -> bool {
        self.installing
    }

    /// A window with no installation running.
    pub fn new() -> (res: InstallerFlow)
        ensures
            !res.busy(),
    {
        InstallerFlow { installing: false }
    }

    /// Whether an installation is running.
    pub fn is_installing(&self) -> (res: bool)
        ensures
            res == self.busy(),
    {
        self.installing
    }

    /// The install button was clicked with the launch check box in state
    /// `launch_checked`.  Returns whether to start the program afterwards,
    /// where an installation starts now; `None` while one is running.
    pub fn on_install_clicked(&mut self, options: &InstallOptions, launch_checked: bool) -> (res:
        Option<bool>)
        ensures
            (final(self).busy(), res) == install_click_step(old(self).busy(), *options, launch_checked),
    {
        if self.installing {
            return None;
        }
        self.installing = true;
        Some(should_launch(options, launch_checked))
    }

    /// The cancel button was clicked: whether to close the window, which
    /// is not done while an installation is running.
    pub fn on_cancel_clicked(&self) -> (res: bool)
        ensures
            res == !self.busy(),
    {
        !self.installing
    }

    /// The running installation ended; returns whether to close the window,
    /// which is done after a successful one.
    pub fn on_install_finished(&mut self, succeeded: bool) -> (res: bool)
        ensures
            !final(self).busy(),
            res == succeeded,
    {
        self.installing = false;
        succeeded
    }
}

/// A click on install always leaves an installation running: the one that
/// it starts, or the one already running, whatever the launch check box and
/// the options say; and it starts one exactly when none was running.
pub proof fn law_click_makes_busy(installing: bool, options: InstallOptions, launch_checked: bool)
    ensures
        install_click_step(installing, options, launch_checked).0,
        install_click_step(installing, options, launch_checked).1 is Some <==> !installing,
{
}

/// A started installation launches the program afterwards exactly when the
/// check box asks for it and `--no-launch` was not given.
pub proof fn law_launch_only_when_asked(options: InstallOptions, launch_checked: bool)
    ensures
        install_click_step(false, options, launch_checked).1 == Some(
            launch_checked && !options.no_launch,
        ),
{
}

/// While an installation runs, clicking install again starts no second one.
pub proof fn law_one_installation_at_a_time(options: InstallOptions, launch_checked: bool)
    ensures
        install_click_step(true, options, launch_checked) == (true, None::<bool>),
{
}

/// `--no-launch` keeps the program from being started, whatever the window
/// says.
pub proof fn law_no_launch_wins(installing: bool, options: InstallOptions, launch_checked: bool)
    requires
        options.no_launch,
    ensures
        install_click_step(installing, options, launch_checked).1 != Some(true),
{
}

/// `s` with each `'` doubled, for use inside a single-quoted PowerShell
/// string.
pub open spec fn ps_quoted(s: Seq<char>) -> Seq<char>
    decreases s.len(),
{
    if s.len() == 0 {
        seq![]
    } else {
        ps_quoted(s.drop_last()) + (if s.last() == '\'' {
            seq!['\'', '\'']
        } else {
            seq![s.last()]
        })
    }
}

/// What PowerShell reads from the body of a single-quoted string: each
/// `''` stands for one `'`.
pub open spec fn ps_unquoted(t: Seq<char>) -> Seq<char>
    decreases t.len(),
{
    if t.len() == 0 {
        seq![]
    } else if t.len() >= 2 && t[0] == '\'' && t[1] == '\'' {
        seq!['\''] + ps_unquoted(t.skip(2))
    } else {
        seq![t[0]] + ps_unquoted(t.skip(1))
    }
}

/// Quoting distributes over concatenation.
pub proof fn lemma_ps_quoted_append(a: Seq<char>, b: Seq<char>)
    ensures
        ps_quoted(a + b) == ps_quoted(a) + ps_quoted(b),
    decreases b.len(),
{
    if b.len() == 0 {
        assert(a + b =~= a);
        assert(ps_quoted(a) + ps_quoted(b) =~= ps_quoted(a));
    } else {
        lemma_ps_quoted_append(a, b.drop_last());
        assert((a + b).drop_last() =~= a + b.drop_last());
        assert((a + b).last() == b.last());
    }
}

/// Whether a character is a single quote.
pub open spec fn is_quote(c: char) -> bool {
    c == '\''
}

/// Quoting adds exactly one character for each `'`, doubles the quotes and
/// keeps every other character in order.
pub proof fn law_quoting_doubles_quotes(s: Seq<char>)
    ensures
        ps_quoted(s).len() == s.len() + s.filter(|c: char| is_quote(c)).len(),
        ps_quoted(s).filter(|c: char| is_quote(c)).len() == 2 * s.filter(|c: char| is_quote(c)).len(),
        ps_quoted(s).filter(|c: char| !is_quote(c)) == s.filter(|c: char| !is_quote(c)),
    decreases s.len(),
{
    let q_pred = |c: char| is_quote(c);
    let n_pred = |c: char| !is_quote(c);
    if s.len() > 0 {
        law_quoting_doubles_quotes(s.drop_last());
        let q = ps_quoted(s.drop_last());
        let tail = if s.last() == '\'' {
            seq!['\'', '\'']
        } else {
            seq![s.last()]
        };
        assert(ps_quoted(s) == q + tail);
        Seq::filter_distributes_over_add(q, tail, q_pred);
        Seq::filter_distributes_over_add(q, tail, n_pred);
        reveal_with_fuel(Seq::filter, 3);
        assert(tail.drop_last().drop_last() =~= Seq::<char>::empty() || tail.drop_last()
            =~= Seq::<char>::empty());
        if s.last() == '\'' {
            assert(tail.drop_last() =~= seq!['\'']);
            assert(tail.filter(q_pred) =~= tail);
            assert(tail.filter(n_pred) =~= Seq::<char>::empty());
        } else {
            assert(tail.drop_last() =~= Seq::<char>::empty());
            assert(tail.filter(q_pred) =~= Seq::<char>::empty());
            assert(tail.filter(n_pred) =~= tail);
        }
    } else {
        reveal_with_fuel(Seq::filter, 1);
    }
}

/// A quoted path reads back, in PowerShell, as the path itself: quotes in
/// it cannot end the string early.
pub proof fn law_quoting_reads_back(s: Seq<char>)
    ensures
        ps_unquoted(ps_quoted(s)) == s,
    decreases s.len(),
{
    if s.len() == 0 {
    } else {
        let first = seq![s[0]];
        let rest = s.drop_first();
        assert(s =~= first + rest);
        lemma_ps_quoted_append(first, rest);
        assert(first.drop_last() =~= Seq::<char>::empty());
        assert(ps_quoted(Seq::<char>::empty()) =~= Seq::<char>::empty());
        let q = ps_quoted(first) + ps_quoted(rest);
        law_quoting_reads_back(rest);
        if s[0] == '\'' {
            assert(ps_quoted(first) =~= seq!['\'', '\'']);
            assert(q.skip(2) =~= ps_quoted(rest));
            assert(ps_unquoted(q) =~= seq!['\''] + rest);
        } else {
            assert(ps_quoted(first) =~= seq![s[0]]);
            assert(q.skip(1) =~= ps_quoted(rest));
            assert(ps_unquoted(q) =~= seq![s[0]] + rest);
        }
    }
}

/// `value` with each `'` doubled, for use inside a single-quoted PowerShell
/// string.
pub fn ps_single_quote(value: &str) -> (res: String)
    ensures
        res@ == ps_quoted(value@),
{
    let cs = chars_of(value);
    let mut res = String::new();
    let mut k: usize = 0;
    while k < cs.len()
        invariant
            cs@ == value@,
            k <= cs@.len(),
            res@ == ps_quoted(cs@.take(k as int)),
        decreases cs.len() - k,
    {
        let c = cs[k];
        push_char(&mut res, c);
        if c == '\'' {
            push_char(&mut res, '\'');
        }
        assert(cs@.take(k + 1).drop_last() =~= cs@.take(k as int));
        assert(res@ =~= ps_quoted(cs@.take(k + 1)));
        k = k + 1;
    }
    assert(cs@.take(cs.len() as int) =~= cs@);
    res
}


/// The PowerShell script that creates the program's Start Menu shortcut and
/// the uninstaller's, each path quoted for a single-quoted string.
pub open spec fn shortcut_script_text(
    app_shortcut: Seq<char>,
    uninstall_shortcut: Seq<char>,
    target: Seq<char>,
    working: Seq<char>,
    icon: Seq<char>,
    uninstall_script: Seq<char>,
) -> Seq<char> {
    "$w = New-Object -ComObject WScript.Shell; $app = $w.CreateShortcut('"@ + ps_quoted(
        app_shortcut,
    ) + "'); $app.TargetPath = '"@ + ps_quoted(target) + "'; $app.WorkingDirectory = '"@
        + ps_quoted(working) + "'; $app.IconLocation = '"@ + ps_quoted(icon)
        + "'; $app.Save(); $uninstall = $w.CreateShortcut('"@ + ps_quoted(uninstall_shortcut)
        + "'); $uninstall.TargetPath = 'powershell.exe'; $uninstall.WorkingDirectory = '"@
        + ps_quoted(working) + "'; $uninstall.IconLocation = '"@ + ps_quoted(icon)
        + "'; $uninstall.Arguments = '-NoProfile -ExecutionPolicy Bypass -File \""@ + ps_quoted(
        uninstall_script,
    ) + "\"'; $uninstall.Save()"@
}

/// The PowerShell script that creates the Start Menu shortcut
/// `app_shortcut` to `target` (started in `working`, with the icon `icon`)
/// and the shortcut `uninstall_shortcut` that runs `uninstall_script`.
pub fn shortcut_script(
    app_shortcut: &str,
    uninstall_shortcut: &str,
    target: &str,
    working: &str,
    icon: &str,
    uninstall_script: &str,
) -> (res: String)
    ensures
        res@ == shortcut_script_text(
            app_shortcut@,
            uninstall_shortcut@,
            target@,
            working@,
            icon@,
            uninstall_script@,
        ),
{
    let app_q = ps_single_quote(app_shortcut);
    let uninstall_q = ps_single_quote(uninstall_shortcut);
    let target_q = ps_single_quote(target);
    let working_q = ps_single_quote(working);
    let icon_q = ps_single_quote(icon);
    let script_q = ps_single_quote(uninstall_script);
    let mut res = String::from_str(
        "$w = New-Object -ComObject WScript.Shell; $app = $w.CreateShortcut('",
    );
    res.append(app_q.as_str());
    res.append("'); $app.TargetPath = '");
    res.append(target_q.as_str());
    res.append("'; $app.WorkingDirectory = '");
    res.append(working_q.as_str());
    res.append("'; $app.IconLocation = '");
    res.append(icon_q.as_str());
    res.append("'; $app.Save(); $uninstall = $w.CreateShortcut('");
    res.append(uninstall_q.as_str());
    res.append("'); $uninstall.TargetPath = 'powershell.exe'; $uninstall.WorkingDirectory = '");
    res.append(working_q.as_str());
    res.append("'; $uninstall.IconLocation = '");
    res.append(icon_q.as_str());
    res.append("'; $uninstall.Arguments = '-NoProfile -ExecutionPolicy Bypass -File \"");
    res.append(script_q.as_str());
    res.append("\"'; $uninstall.Save()");
    res
}

/// The message of a failed step of the installation: what was being done,
/// on which path, and the error.
pub open spec fn path_error_text(action: Seq<char>, path: Seq<char>, error: Seq<char>) -> Seq<
    char,
> {
    action + ": "@ + path + "\n"@ + error
}

/// The message of a failed step of the installation.
pub fn path_error_message(action: &str, path: &str, error: &str) -> (res: String)
    ensures
        res@ == path_error_text(action@, path@, error@),
{
    let mut res = String::from_str(action);
    res.append(": ");
    res.append(path);
    res.append("\n");
    res.append(error);
    res
}

/// The Japanese text on a system whose user-interface language is
/// Japanese, the English one elsewhere.
pub open spec fn localized_text(ja: Seq<char>, en: Seq<char>, language_id: u16) -> Seq<char> {
    if is_japanese_language_id(language_id) {
        ja
    } else {
        en
    }
}

/// The text in the language of the system, whose user-interface language
/// has the identifier `language_id`.
pub fn localized(ja: &str, en: &str, language_id: u16) -> (res: String)
    ensures
        res@ == localized_text(ja@, en@, language_id),
{
    if is_japanese_ui_language(language_id) {
        String::from_str(ja)
    } else {
        String::from_str(en)
    }
}

/// The message shown when the installation failed: the localized heading,
/// a blank line, and the error.
pub fn install_failed_message(error: &str, language_id: u16) -> (res: String)
    ensures
        res@ == localized_text(
            "インストールに失敗しました。"@,
            "Installation failed."@,
            language_id,
        ) + "\n\n"@ + error@,
{
    let mut res = localized("インストールに失敗しました。", "Installation failed.", language_id);
    res.append("\n\n");
    res.append(error);
    res
}

/// The message shown when the installation succeeded: the localized
/// heading and the installation folder.
pub fn install_completed_message(install_root: &str, language_id: u16) -> (res: String)
    ensures
        res@ == localized_text(
            "インストールが完了しました。"@,
            "Installation completed."@,
            language_id,
        ) + "\n"@ + install_root@,
{
    let mut res = localized(
        "インストールが完了しました。",
        "Installation completed.",
        language_id,
    );
    res.append("\n");
    res.append(install_root);
    res
}


/// The shortcut script as its eight quoted paths, each with the text that
/// opens and closes its string, and the text between them.
spec fn script_groups(
    app_shortcut: Seq<char>,
    uninstall_shortcut: Seq<char>,
    target: Seq<char>,
    working: Seq<char>,
    icon: Seq<char>,
    uninstall_script: Seq<char>,
) -> Seq<char> {
    "$w = New-Object -ComObject WScript.Shell; "@ + ("$app = $w.CreateShortcut('"@ + ps_quoted(app_shortcut) + "');"@) + " "@ + ("$app.TargetPath = '"@ + ps_quoted(target) + "';"@) + " "@ + ("$app.WorkingDirectory = '"@ + ps_quoted(working) + "';"@) + " "@ + ("$app.IconLocation = '"@ + ps_quoted(icon) + "';"@) + " $app.Save(); "@ + ("$uninstall = $w.CreateShortcut('"@ + ps_quoted(uninstall_shortcut) + "');"@) + " $uninstall.TargetPath = 'powershell.exe'; "@ + ("$uninstall.WorkingDirectory = '"@ + ps_quoted(working) + "';"@) + " "@ + ("$uninstall.IconLocation = '"@ + ps_quoted(icon) + "';"@) + " $uninstall.Arguments = '-NoProfile -ExecutionPolicy Bypass "@ + ("-File \""@ + ps_quoted(uninstall_script) + "\"';"@) + " $uninstall.Save()"@
}

proof fn lemma_script_fragments()
    ensures
        "$w = New-Object -ComObject WScript.Shell; $app = $w.CreateShortcut('"@ == "$w = New-Object -ComObject WScript.Shell; "@ + "$app = $w.CreateShortcut('"@,
        "'); $app.TargetPath = '"@ == "');"@ + " "@ + "$app.TargetPath = '"@,
        "'; $app.WorkingDirectory = '"@ == "';"@ + " "@ + "$app.WorkingDirectory = '"@,
        "'; $app.IconLocation = '"@ == "';"@ + " "@ + "$app.IconLocation = '"@,
        "'; $app.Save(); $uninstall = $w.CreateShortcut('"@ == "';"@ + " $app.Save(); "@ + "$uninstall = $w.CreateShortcut('"@,
        "'); $uninstall.TargetPath = 'powershell.exe'; $uninstall.WorkingDirectory = '"@ == "');"@ + " $uninstall.TargetPath = 'powershell.exe'; "@ + "$uninstall.WorkingDirectory = '"@,
        "'; $uninstall.IconLocation = '"@ == "';"@ + " "@ + "$uninstall.IconLocation = '"@,
        "'; $uninstall.Arguments = '-NoProfile -ExecutionPolicy Bypass -File \""@ == "';"@ + " $uninstall.Arguments = '-NoProfile -ExecutionPolicy Bypass "@ + "-File \""@,
        "\"'; $uninstall.Save()"@ == "\"';"@ + " $uninstall.Save()"@,
{
    assert("$w = New-Object -ComObject WScript.Shell; $app = $w.CreateShortcut('"@ =~= "$w = New-Object -ComObject WScript.Shell; "@ + "$app = $w.CreateShortcut('"@) by {
        reveal_strlit("$w = New-Object -ComObject WScript.Shell; $app = $w.CreateShortcut('");
        reveal_strlit("$w = New-Object -ComObject WScript.Shell; ");
        reveal_strlit("$app = $w.CreateShortcut('");
    }
    assert("'); $app.TargetPath = '"@ =~= "');"@ + " "@ + "$app.TargetPath = '"@) by {
        reveal_strlit("'); $app.TargetPath = '");
        reveal_strlit("');");
        reveal_strlit(" ");
        reveal_strlit("$app.TargetPath = '");
    }
    assert("'; $app.WorkingDirectory = '"@ =~= "';"@ + " "@ + "$app.WorkingDirectory = '"@) by {
        reveal_strlit("'; $app.WorkingDirectory = '");
        reveal_strlit("';");
        reveal_strlit(" ");
        reveal_strlit("$app.WorkingDirectory = '");
    }
    assert("'; $app.IconLocation = '"@ =~= "';"@ + " "@ + "$app.IconLocation = '"@) by {
        reveal_strlit("'; $app.IconLocation = '");
        reveal_strlit("';");
        reveal_strlit(" ");
        reveal_strlit("$app.IconLocation = '");
    }
    assert("'; $app.Save(); $uninstall = $w.CreateShortcut('"@ =~= "';"@ + " $app.Save(); "@ + "$uninstall = $w.CreateShortcut('"@) by {
        reveal_strlit("'; $app.Save(); $uninstall = $w.CreateShortcut('");
        reveal_strlit("';");
        reveal_strlit(" $app.Save(); ");
        reveal_strlit("$uninstall = $w.CreateShortcut('");
    }
    assert("'); $uninstall.TargetPath = 'powershell.exe'; $uninstall.WorkingDirectory = '"@ =~= "');"@ + " $uninstall.TargetPath = 'powershell.exe'; "@ + "$uninstall.WorkingDirectory = '"@) by {
        reveal_strlit("'); $uninstall.TargetPath = 'powershell.exe'; $uninstall.WorkingDirectory = '");
        reveal_strlit("');");
        reveal_strlit(" $uninstall.TargetPath = 'powershell.exe'; ");
        reveal_strlit("$uninstall.WorkingDirectory = '");
    }
    assert("'; $uninstall.IconLocation = '"@ =~= "';"@ + " "@ + "$uninstall.IconLocation = '"@) by {
        reveal_strlit("'; $uninstall.IconLocation = '");
        reveal_strlit("';");
        reveal_strlit(" ");
        reveal_strlit("$uninstall.IconLocation = '");
    }
    assert("'; $uninstall.Arguments = '-NoProfile -ExecutionPolicy Bypass -File \""@ =~= "';"@ + " $uninstall.Arguments = '-NoProfile -ExecutionPolicy Bypass "@ + "-File \""@) by {
        reveal_strlit("'; $uninstall.Arguments = '-NoProfile -ExecutionPolicy Bypass -File \"");
        reveal_strlit("';");
        reveal_strlit(" $uninstall.Arguments = '-NoProfile -ExecutionPolicy Bypass ");
        reveal_strlit("-File \"");
    }
    assert("\"'; $uninstall.Save()"@ =~= "\"';"@ + " $uninstall.Save()"@) by {
        reveal_strlit("\"'; $uninstall.Save()");
        reveal_strlit("\"';");
        reveal_strlit(" $uninstall.Save()");
    }
}

#[verifier::rlimit(100)]
#[verifier::spinoff_prover]
proof fn lemma_script_groups(
    app_shortcut: Seq<char>,
    uninstall_shortcut: Seq<char>,
    target: Seq<char>,
    working: Seq<char>,
    icon: Seq<char>,
    uninstall_script: Seq<char>,
)
    ensures
        shortcut_script_text(app_shortcut, uninstall_shortcut, target, working, icon, uninstall_script) == script_groups(app_shortcut, uninstall_shortcut, target, working, icon, uninstall_script),
{
    lemma_script_fragments();
    assert(shortcut_script_text(app_shortcut, uninstall_shortcut, target, working, icon, uninstall_script) == "$w = New-Object -ComObject WScript.Shell; "@ + "$app = $w.CreateShortcut('"@ + ps_quoted(app_shortcut) + "');"@ + " "@ + "$app.TargetPath = '"@ + ps_quoted(target) + "';"@ + " "@ + "$app.WorkingDirectory = '"@ + ps_quoted(working) + "';"@ + " "@ + "$app.IconLocation = '"@ + ps_quoted(icon) + "';"@ + " $app.Save(); "@ + "$uninstall = $w.CreateShortcut('"@ + ps_quoted(uninstall_shortcut) + "');"@ + " $uninstall.TargetPath = 'powershell.exe'; "@ + "$uninstall.WorkingDirectory = '"@ + ps_quoted(working) + "';"@ + " "@ + "$uninstall.IconLocation = '"@ + ps_quoted(icon) + "';"@ + " $uninstall.Arguments = '-NoProfile -ExecutionPolicy Bypass "@ + "-File \""@ + ps_quoted(uninstall_script) + "\"';"@ + " $uninstall.Save()"@);
    assert("$w = New-Object -ComObject WScript.Shell; "@ + "$app = $w.CreateShortcut('"@ + ps_quoted(app_shortcut) + "');"@ + " "@ + "$app.TargetPath = '"@ + ps_quoted(target) + "';"@ + " "@ + "$app.WorkingDirectory = '"@ + ps_quoted(working) + "';"@ + " "@ + "$app.IconLocation = '"@ + ps_quoted(icon) + "';"@ + " $app.Save(); "@ + "$uninstall = $w.CreateShortcut('"@ + ps_quoted(uninstall_shortcut) + "');"@ + " $uninstall.TargetPath = 'powershell.exe'; "@ + "$uninstall.WorkingDirectory = '"@ + ps_quoted(working) + "';"@ + " "@ + "$uninstall.IconLocation = '"@ + ps_quoted(icon) + "';"@ + " $uninstall.Arguments = '-NoProfile -ExecutionPolicy Bypass "@ + "-File \""@ + ps_quoted(uninstall_script) + "\"';"@ + " $uninstall.Save()"@ =~= script_groups(app_shortcut, uninstall_shortcut, target, working, icon, uninstall_script));
}

/// Where the program's shortcut stands in the grouped script.
#[verifier::spinoff_prover]
proof fn lemma_quoted_path_0(
    app_shortcut: Seq<char>,
    uninstall_shortcut: Seq<char>,
    target: Seq<char>,
    working: Seq<char>,
    icon: Seq<char>,
    uninstall_script: Seq<char>,
)
    ensures
        exists|pre: Seq<char>, post: Seq<char>|
            script_groups(app_shortcut, uninstall_shortcut, target, working, icon, uninstall_script) == pre + ("$app = $w.CreateShortcut('"@ + ps_quoted(app_shortcut) + "');"@) + post,
{
    let pre = "$w = New-Object -ComObject WScript.Shell; "@;
    let post = " "@ + ("$app.TargetPath = '"@ + ps_quoted(target) + "';"@) + " "@ + ("$app.WorkingDirectory = '"@ + ps_quoted(working) + "';"@) + " "@ + ("$app.IconLocation = '"@ + ps_quoted(icon) + "';"@) + " $app.Save(); "@ + ("$uninstall = $w.CreateShortcut('"@ + ps_quoted(uninstall_shortcut) + "');"@) + " $uninstall.TargetPath = 'powershell.exe'; "@ + ("$uninstall.WorkingDirectory = '"@ + ps_quoted(working) + "';"@) + " "@ + ("$uninstall.IconLocation = '"@ + ps_quoted(icon) + "';"@) + " $uninstall.Arguments = '-NoProfile -ExecutionPolicy Bypass "@ + ("-File \""@ + ps_quoted(uninstall_script) + "\"';"@) + " $uninstall.Save()"@;
    assert(script_groups(app_shortcut, uninstall_shortcut, target, working, icon, uninstall_script) =~= pre + ("$app = $w.CreateShortcut('"@ + ps_quoted(app_shortcut) + "');"@) + post);
}

/// Where the program stands in the grouped script.
#[verifier::spinoff_prover]
proof fn lemma_quoted_path_1(
    app_shortcut: Seq<char>,
    uninstall_shortcut: Seq<char>,
    target: Seq<char>,
    working: Seq<char>,
    icon: Seq<char>,
    uninstall_script: Seq<char>,
)
    ensures
        exists|pre: Seq<char>, post: Seq<char>|
            script_groups(app_shortcut, uninstall_shortcut, target, working, icon, uninstall_script) == pre + ("$app.TargetPath = '"@ + ps_quoted(target) + "';"@) + post,
{
    let pre = "$w = New-Object -ComObject WScript.Shell; "@ + ("$app = $w.CreateShortcut('"@ + ps_quoted(app_shortcut) + "');"@) + " "@;
    let post = " "@ + ("$app.WorkingDirectory = '"@ + ps_quoted(working) + "';"@) + " "@ + ("$app.IconLocation = '"@ + ps_quoted(icon) + "';"@) + " $app.Save(); "@ + ("$uninstall = $w.CreateShortcut('"@ + ps_quoted(uninstall_shortcut) + "');"@) + " $uninstall.TargetPath = 'powershell.exe'; "@ + ("$uninstall.WorkingDirectory = '"@ + ps_quoted(working) + "';"@) + " "@ + ("$uninstall.IconLocation = '"@ + ps_quoted(icon) + "';"@) + " $uninstall.Arguments = '-NoProfile -ExecutionPolicy Bypass "@ + ("-File \""@ + ps_quoted(uninstall_script) + "\"';"@) + " $uninstall.Save()"@;
    assert(script_groups(app_shortcut, uninstall_shortcut, target, working, icon, uninstall_script) =~= pre + ("$app.TargetPath = '"@ + ps_quoted(target) + "';"@) + post);
}

/// Where the working folder stands in the grouped script.
#[verifier::spinoff_prover]
proof fn lemma_quoted_path_2(
    app_shortcut: Seq<char>,
    uninstall_shortcut: Seq<char>,
    target: Seq<char>,
    working: Seq<char>,
    icon: Seq<char>,
    uninstall_script: Seq<char>,
)
    ensures
        exists|pre: Seq<char>, post: Seq<char>|
            script_groups(app_shortcut, uninstall_shortcut, target, working, icon, uninstall_script) == pre + ("$app.WorkingDirectory = '"@ + ps_quoted(working) + "';"@) + post,
{
    let pre = "$w = New-Object -ComObject WScript.Shell; "@ + ("$app = $w.CreateShortcut('"@ + ps_quoted(app_shortcut) + "');"@) + " "@ + ("$app.TargetPath = '"@ + ps_quoted(target) + "';"@) + " "@;
    let post = " "@ + ("$app.IconLocation = '"@ + ps_quoted(icon) + "';"@) + " $app.Save(); "@ + ("$uninstall = $w.CreateShortcut('"@ + ps_quoted(uninstall_shortcut) + "');"@) + " $uninstall.TargetPath = 'powershell.exe'; "@ + ("$uninstall.WorkingDirectory = '"@ + ps_quoted(working) + "';"@) + " "@ + ("$uninstall.IconLocation = '"@ + ps_quoted(icon) + "';"@) + " $uninstall.Arguments = '-NoProfile -ExecutionPolicy Bypass "@ + ("-File \""@ + ps_quoted(uninstall_script) + "\"';"@) + " $uninstall.Save()"@;
    assert(script_groups(app_shortcut, uninstall_shortcut, target, working, icon, uninstall_script) =~= pre + ("$app.WorkingDirectory = '"@ + ps_quoted(working) + "';"@) + post);
}

/// Where the icon stands in the grouped script.
#[verifier::spinoff_prover]
proof fn lemma_quoted_path_3(
    app_shortcut: Seq<char>,
    uninstall_shortcut: Seq<char>,
    target: Seq<char>,
    working: Seq<char>,
    icon: Seq<char>,
    uninstall_script: Seq<char>,
)
    ensures
        exists|pre: Seq<char>, post: Seq<char>|
            script_groups(app_shortcut, uninstall_shortcut, target, working, icon, uninstall_script) == pre + ("$app.IconLocation = '"@ + ps_quoted(icon) + "';"@) + post,
{
    let pre = "$w = New-Object -ComObject WScript.Shell; "@ + ("$app = $w.CreateShortcut('"@ + ps_quoted(app_shortcut) + "');"@) + " "@ + ("$app.TargetPath = '"@ + ps_quoted(target) + "';"@) + " "@ + ("$app.WorkingDirectory = '"@ + ps_quoted(working) + "';"@) + " "@;
    let post = " $app.Save(); "@ + ("$uninstall = $w.CreateShortcut('"@ + ps_quoted(uninstall_shortcut) + "');"@) + " $uninstall.TargetPath = 'powershell.exe'; "@ + ("$uninstall.WorkingDirectory = '"@ + ps_quoted(working) + "';"@) + " "@ + ("$uninstall.IconLocation = '"@ + ps_quoted(icon) + "';"@) + " $uninstall.Arguments = '-NoProfile -ExecutionPolicy Bypass "@ + ("-File \""@ + ps_quoted(uninstall_script) + "\"';"@) + " $uninstall.Save()"@;
    assert(script_groups(app_shortcut, uninstall_shortcut, target, working, icon, uninstall_script) =~= pre + ("$app.IconLocation = '"@ + ps_quoted(icon) + "';"@) + post);
}

/// Where the uninstaller's shortcut stands in the grouped script.
#[verifier::spinoff_prover]
proof fn lemma_quoted_path_4(
    app_shortcut: Seq<char>,
    uninstall_shortcut: Seq<char>,
    target: Seq<char>,
    working: Seq<char>,
    icon: Seq<char>,
    uninstall_script: Seq<char>,
)
    ensures
        exists|pre: Seq<char>, post: Seq<char>|
            script_groups(app_shortcut, uninstall_shortcut, target, working, icon, uninstall_script) == pre + ("$uninstall = $w.CreateShortcut('"@ + ps_quoted(uninstall_shortcut) + "');"@) + post,
{
    let pre = "$w = New-Object -ComObject WScript.Shell; "@ + ("$app = $w.CreateShortcut('"@ + ps_quoted(app_shortcut) + "');"@) + " "@ + ("$app.TargetPath = '"@ + ps_quoted(target) + "';"@) + " "@ + ("$app.WorkingDirectory = '"@ + ps_quoted(working) + "';"@) + " "@ + ("$app.IconLocation = '"@ + ps_quoted(icon) + "';"@) + " $app.Save(); "@;
    let post = " $uninstall.TargetPath = 'powershell.exe'; "@ + ("$uninstall.WorkingDirectory = '"@ + ps_quoted(working) + "';"@) + " "@ + ("$uninstall.IconLocation = '"@ + ps_quoted(icon) + "';"@) + " $uninstall.Arguments = '-NoProfile -ExecutionPolicy Bypass "@ + ("-File \""@ + ps_quoted(uninstall_script) + "\"';"@) + " $uninstall.Save()"@;
    assert(script_groups(app_shortcut, uninstall_shortcut, target, working, icon, uninstall_script) =~= pre + ("$uninstall = $w.CreateShortcut('"@ + ps_quoted(uninstall_shortcut) + "');"@) + post);
}

/// Where the working folder, in the uninstaller's shortcut stands in the grouped script.
#[verifier::spinoff_prover]
proof fn lemma_quoted_path_5(
    app_shortcut: Seq<char>,
    uninstall_shortcut: Seq<char>,
    target: Seq<char>,
    working: Seq<char>,
    icon: Seq<char>,
    uninstall_script: Seq<char>,
)
    ensures
        exists|pre: Seq<char>, post: Seq<char>|
            script_groups(app_shortcut, uninstall_shortcut, target, working, icon, uninstall_script) == pre + ("$uninstall.WorkingDirectory = '"@ + ps_quoted(working) + "';"@) + post,
{
    let pre = "$w = New-Object -ComObject WScript.Shell; "@ + ("$app = $w.CreateShortcut('"@ + ps_quoted(app_shortcut) + "');"@) + " "@ + ("$app.TargetPath = '"@ + ps_quoted(target) + "';"@) + " "@ + ("$app.WorkingDirectory = '"@ + ps_quoted(working) + "';"@) + " "@ + ("$app.IconLocation = '"@ + ps_quoted(icon) + "';"@) + " $app.Save(); "@ + ("$uninstall = $w.CreateShortcut('"@ + ps_quoted(uninstall_shortcut) + "');"@) + " $uninstall.TargetPath = 'powershell.exe'; "@;
    let post = " "@ + ("$uninstall.IconLocation = '"@ + ps_quoted(icon) + "';"@) + " $uninstall.Arguments = '-NoProfile -ExecutionPolicy Bypass "@ + ("-File \""@ + ps_quoted(uninstall_script) + "\"';"@) + " $uninstall.Save()"@;
    assert(script_groups(app_shortcut, uninstall_shortcut, target, working, icon, uninstall_script) =~= pre + ("$uninstall.WorkingDirectory = '"@ + ps_quoted(working) + "';"@) + post);
}

/// Where the icon, in the uninstaller's shortcut stands in the grouped script.
#[verifier::spinoff_prover]
proof fn lemma_quoted_path_6(
    app_shortcut: Seq<char>,
    uninstall_shortcut: Seq<char>,
    target: Seq<char>,
    working: Seq<char>,
    icon: Seq<char>,
    uninstall_script: Seq<char>,
)
    ensures
        exists|pre: Seq<char>, post: Seq<char>|
            script_groups(app_shortcut, uninstall_shortcut, target, working, icon, uninstall_script) == pre + ("$uninstall.IconLocation = '"@ + ps_quoted(icon) + "';"@) + post,
{
    let pre = "$w = New-Object -ComObject WScript.Shell; "@ + ("$app = $w.CreateShortcut('"@ + ps_quoted(app_shortcut) + "');"@) + " "@ + ("$app.TargetPath = '"@ + ps_quoted(target) + "';"@) + " "@ + ("$app.WorkingDirectory = '"@ + ps_quoted(working) + "';"@) + " "@ + ("$app.IconLocation = '"@ + ps_quoted(icon) + "';"@) + " $app.Save(); "@ + ("$uninstall = $w.CreateShortcut('"@ + ps_quoted(uninstall_shortcut) + "');"@) + " $uninstall.TargetPath = 'powershell.exe'; "@ + ("$uninstall.WorkingDirectory = '"@ + ps_quoted(working) + "';"@) + " "@;
    let post = " $uninstall.Arguments = '-NoProfile -ExecutionPolicy Bypass "@ + ("-File \""@ + ps_quoted(uninstall_script) + "\"';"@) + " $uninstall.Save()"@;
    assert(script_groups(app_shortcut, uninstall_shortcut, target, working, icon, uninstall_script) =~= pre + ("$uninstall.IconLocation = '"@ + ps_quoted(icon) + "';"@) + post);
}

/// Where the uninstaller script stands in the grouped script.
#[verifier::spinoff_prover]
proof fn lemma_quoted_path_7(
    app_shortcut: Seq<char>,
    uninstall_shortcut: Seq<char>,
    target: Seq<char>,
    working: Seq<char>,
    icon: Seq<char>,
    uninstall_script: Seq<char>,
)
    ensures
        exists|pre: Seq<char>, post: Seq<char>|
            script_groups(app_shortcut, uninstall_shortcut, target, working, icon, uninstall_script) == pre + ("-File \""@ + ps_quoted(uninstall_script) + "\"';"@) + post,
{
    let pre = "$w = New-Object -ComObject WScript.Shell; "@ + ("$app = $w.CreateShortcut('"@ + ps_quoted(app_shortcut) + "');"@) + " "@ + ("$app.TargetPath = '"@ + ps_quoted(target) + "';"@) + " "@ + ("$app.WorkingDirectory = '"@ + ps_quoted(working) + "';"@) + " "@ + ("$app.IconLocation = '"@ + ps_quoted(icon) + "';"@) + " $app.Save(); "@ + ("$uninstall = $w.CreateShortcut('"@ + ps_quoted(uninstall_shortcut) + "');"@) + " $uninstall.TargetPath = 'powershell.exe'; "@ + ("$uninstall.WorkingDirectory = '"@ + ps_quoted(working) + "';"@) + " "@ + ("$uninstall.IconLocation = '"@ + ps_quoted(icon) + "';"@) + " $uninstall.Arguments = '-NoProfile -ExecutionPolicy Bypass "@;
    let post = " $uninstall.Save()"@;
    assert(script_groups(app_shortcut, uninstall_shortcut, target, working, icon, uninstall_script) =~= pre + ("-File \""@ + ps_quoted(uninstall_script) + "\"';"@) + post);
}

/// Each path goes into the shortcut script only in quoted form, right after
/// the text that opens its single-quoted string and right before the `'`
/// that closes it (the working folder and the icon in both shortcuts); by
/// `law_quoting_reads_back` PowerShell reads each back as the path itself.
pub proof fn law_paths_quoted_in_script(
    app_shortcut: Seq<char>,
    uninstall_shortcut: Seq<char>,
    target: Seq<char>,
    working: Seq<char>,
    icon: Seq<char>,
    uninstall_script: Seq<char>,
)
    ensures
        exists|pre: Seq<char>, post: Seq<char>|
            shortcut_script_text(app_shortcut, uninstall_shortcut, target, working, icon, uninstall_script) == pre + ("$app = $w.CreateShortcut('"@ + ps_quoted(app_shortcut) + "');"@) + post,
        exists|pre: Seq<char>, post: Seq<char>|
            shortcut_script_text(app_shortcut, uninstall_shortcut, target, working, icon, uninstall_script) == pre + ("$app.TargetPath = '"@ + ps_quoted(target) + "';"@) + post,
        exists|pre: Seq<char>, post: Seq<char>|
            shortcut_script_text(app_shortcut, uninstall_shortcut, target, working, icon, uninstall_script) == pre + ("$app.WorkingDirectory = '"@ + ps_quoted(working) + "';"@) + post,
        exists|pre: Seq<char>, post: Seq<char>|
            shortcut_script_text(app_shortcut, uninstall_shortcut, target, working, icon, uninstall_script) == pre + ("$app.IconLocation = '"@ + ps_quoted(icon) + "';"@) + post,
        exists|pre: Seq<char>, post: Seq<char>|
            shortcut_script_text(app_shortcut, uninstall_shortcut, target, working, icon, uninstall_script) == pre + ("$uninstall = $w.CreateShortcut('"@ + ps_quoted(uninstall_shortcut) + "');"@) + post,
        exists|pre: Seq<char>, post: Seq<char>|
            shortcut_script_text(app_shortcut, uninstall_shortcut, target, working, icon, uninstall_script) == pre + ("$uninstall.WorkingDirectory = '"@ + ps_quoted(working) + "';"@) + post,
        exists|pre: Seq<char>, post: Seq<char>|
            shortcut_script_text(app_shortcut, uninstall_shortcut, target, working, icon, uninstall_script) == pre + ("$uninstall.IconLocation = '"@ + ps_quoted(icon) + "';"@) + post,
        exists|pre: Seq<char>, post: Seq<char>|
            shortcut_script_text(app_shortcut, uninstall_shortcut, target, working, icon, uninstall_script) == pre + ("-File \""@ + ps_quoted(uninstall_script) + "\"';"@) + post,
{
    lemma_script_groups(app_shortcut, uninstall_shortcut, target, working, icon, uninstall_script);
    lemma_quoted_path_0(app_shortcut, uninstall_shortcut, target, working, icon, uninstall_script);
    lemma_quoted_path_1(app_shortcut, uninstall_shortcut, target, working, icon, uninstall_script);
    lemma_quoted_path_2(app_shortcut, uninstall_shortcut, target, working, icon, uninstall_script);
    lemma_quoted_path_3(app_shortcut, uninstall_shortcut, target, working, icon, uninstall_script);
    lemma_quoted_path_4(app_shortcut, uninstall_shortcut, target, working, icon, uninstall_script);
    lemma_quoted_path_5(app_shortcut, uninstall_shortcut, target, working, icon, uninstall_script);
    lemma_quoted_path_6(app_shortcut, uninstall_shortcut, target, working, icon, uninstall_script);
    lemma_quoted_path_7(app_shortcut, uninstall_shortcut, target, working, icon, uninstall_script);
}

} // verus!
