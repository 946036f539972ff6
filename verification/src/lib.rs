//! Rewriting of copied `x.com` post links to an embed-friendly mirror host,
//! with the settings, language and start-up decisions of the tray program.

pub mod text;
pub mod config;
pub mod clipboard;
pub mod i18n;
pub mod startup;
pub mod gui;
pub mod installer;
