//! The program's settings: which mirror host copied links are rewritten to,
//! whether rewriting is on, and whether the program starts with Windows.

use vstd::prelude::*;

verus! {

/// The mirror host that copied post links are rewritten to.
#[derive(Debug, Clone, Copy, PartialEq, Eq, Structural)]
pub enum RewriteTarget {
    Fx,
    Vx,
}

/// The host name of a rewrite target.
pub open spec fn target_host(target: RewriteTarget) -> Seq<char> {
    match target {
        RewriteTarget::Fx => "fxtwitter.com"@,
        RewriteTarget::Vx => "vxtwitter.com"@,
    }
}

impl RewriteTarget {
    /// The host name that links are rewritten to.
    pub fn host(self) -> (res: &'static str)
        ensures
            res@ == target_host(self),
    {
        match self {
            RewriteTarget::Fx => "fxtwitter.com",
            RewriteTarget::Vx => "vxtwitter.com",
        }
    }
}

/// The stored settings of the program.
#[derive(Debug, Clone, Copy, PartialEq, Eq, Structural)]
pub struct AppConfig {
    pub enabled: bool,
    pub target: RewriteTarget,
    pub launch_on_startup: bool,
}

/// The settings of a first start: rewriting on, to `fxtwitter.com`, and
/// starting with Windows.
pub open spec fn default_config() -> AppConfig {
    AppConfig { enabled: true, target: RewriteTarget::Fx, launch_on_startup: true }
}

impl Default for AppConfig {
    fn default() -> (res: Self)
        ensures
            res == default_config(),
    {
        AppConfig { enabled: true, target: RewriteTarget::Fx, launch_on_startup: true }
    }
}

/// What reading the settings file gave.
#[derive(Debug, Clone, Copy, PartialEq, Eq, Structural)]
pub enum StoredConfig {
    /// There is no settings file.
    Missing,
    /// The file was read and its contents understood.
    Loaded(AppConfig),
    /// The file could not be read, or its contents not understood.
    Unreadable,
}

/// The settings that the program runs with, given what was stored.
pub open spec fn effective_config(stored: StoredConfig) -> AppConfig {
    match stored {
        StoredConfig::Loaded(config) => config,
        _ => default_config(),
    }
}

impl AppConfig {
    /// The settings to run with: the stored ones where the settings file was
    /// read and understood, the defaults where it is missing or unreadable.
    pub fn load(stored: StoredConfig) -> (res: AppConfig)
        ensures
            res == effective_config(stored),
    {
        match stored {
            StoredConfig::Loaded(config) => config,
            _ => AppConfig::default(),
        }
    }
}


/// Loading gives back exactly the settings that were stored.
pub proof fn law_load_returns_stored(config: AppConfig)
    ensures
        effective_config(StoredConfig::Loaded(config)) == config,
{
}

/// Without a readable settings file the program runs with rewriting on,
/// to `fxtwitter.com`, and starting with Windows.
pub proof fn law_defaults_without_file(stored: StoredConfig)
    requires
        !(stored is Loaded),
    ensures
        effective_config(stored) == (AppConfig {
            enabled: true,
            target: RewriteTarget::Fx,
            launch_on_startup: true,
        }),
{
}

} // verus!
