//! Starting the program with Windows: the value kept under the user's `Run`
//! registry key.

use vstd::prelude::*;

verus! {

/// The registry key, under `HKEY_CURRENT_USER`, whose values Windows starts
/// at sign-in.
pub const RUN_KEY_PATH: &'static str = "Software\\Microsoft\\Windows\\CurrentVersion\\Run";

/// The name of the program's value under the `Run` key.
pub const APP_NAME: &'static str = "fix-x";

/// A change to the `Run` key.
#[derive(Debug, PartialEq, Eq)]
pub enum RunKeyUpdate {
    /// Write the value `name` with the data `value`.
    SetValue { name: String, value: String },
    /// Remove the value `name`; a missing value or key is no failure.
    DeleteValue { name: String },
}

/// The command line that starts the executable at `exe_path`: the path in
/// double quotes.
pub open spec fn quoted(exe_path: Seq<char>) -> Seq<char> {
    seq!['"'] + exe_path + seq!['"']
}

/// The command line is the path itself between a pair of double quotes.
pub proof fn law_command_quotes_path(exe_path: Seq<char>)
    ensures
        quoted(exe_path).len() == exe_path.len() + 2,
        quoted(exe_path)[0] == '"',
        quoted(exe_path).last() == '"',
        quoted(exe_path).subrange(1, exe_path.len() + 1int) == exe_path,
{
    assert(quoted(exe_path).subrange(1, exe_path.len() + 1int) =~= exe_path);
}

/// The command line that starts the executable at `exe_path`.
pub fn quoted_command(exe_path: &str) -> (res: String)
    ensures
        res@ == quoted(exe_path@),
{
    let mut res = String::from_str("\"");
    res.append(exe_path);
    res.append("\"");
    proof {
        reveal_strlit("\"");
    }
    res
}

/// The change to the `Run` key that makes Windows start the executable at
/// `exe_path` at sign-in when `enabled`, and no longer start it otherwise.
pub fn sync_launch_on_startup(enabled: bool, exe_path: &str) -> (res: RunKeyUpdate)
    ensures
        enabled ==> (res matches RunKeyUpdate::SetValue { name, value } && name@ == APP_NAME@
            && value@ == quoted(exe_path@)),
        !enabled ==> (res matches RunKeyUpdate::DeleteValue { name } && name@ == APP_NAME@),
{
    if enabled {
        RunKeyUpdate::SetValue { name: String::from_str(APP_NAME), value: quoted_command(exe_path) }
    } else {
        RunKeyUpdate::DeleteValue { name: String::from_str(APP_NAME) }
    }
}

} // verus!
