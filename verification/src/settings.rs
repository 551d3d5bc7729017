//! The settings of the shell.

use crate::text::owned;
use vstd::prelude::*;

verus! {

/// Which terminal is wanted.
#[derive(Clone, Copy, Debug, PartialEq, Eq, Structural)]
pub enum TerminalBackendPreference {
    Auto,
    Pty,
    Vte,
    Ghostty,
}

/// The settings of the shell.
pub struct Settings {
    pub sidebar_width: i32,
    pub terminal_backend: TerminalBackendPreference,
    pub browser_state_automation: bool,
    pub desktop_notifications: bool,
    pub theme: String,
}

/// What the settings are.
pub struct SettingsView {
    pub sidebar_width: i32,
    pub terminal_backend: TerminalBackendPreference,
    pub browser_state_automation: bool,
    pub desktop_notifications: bool,
    pub theme: Seq<char>,
}

impl View for Settings {
    type V = SettingsView;

    open spec fn view(&self) -> SettingsView {
        SettingsView {
            sidebar_width: self.sidebar_width,
            terminal_backend: self.terminal_backend,
            browser_state_automation: self.browser_state_automation,
            desktop_notifications: self.desktop_notifications,
            theme: self.theme@,
        }
    }
}

/// The settings where none were made.
pub open spec fn default_settings() -> SettingsView {
    SettingsView {
        sidebar_width: 220,
        terminal_backend: TerminalBackendPreference::Pty,
        browser_state_automation: true,
        desktop_notifications: true,
        theme: "system"@,
    }
}

impl Default for Settings {
    fn default() -> (r: Self)
        ensures
            r@ == default_settings(),
    {
        Settings {
            sidebar_width: 220,
            terminal_backend: TerminalBackendPreference::Pty,
            browser_state_automation: true,
            desktop_notifications: true,
            theme: owned("system"),
        }
    }
}

/// The settings in force: those that were read, or the default ones.
pub open spec fn in_force(read: Option<Settings>) -> SettingsView {
    match read {
        Some(settings) => settings@,
        None => default_settings(),
    }
}

/// The settings in force.
pub fn get(read: Option<Settings>) -> (r: Settings)
    ensures
        r@ == in_force(read),
{
    match read {
        Some(settings) => settings,
        None => Settings::default(),
    }
}

/// What a terminal is called.
pub open spec fn backend_text(backend: TerminalBackendPreference) -> Seq<char> {
    match backend {
        TerminalBackendPreference::Auto => "auto"@,
        TerminalBackendPreference::Pty => "pty"@,
        TerminalBackendPreference::Vte => "vte"@,
        TerminalBackendPreference::Ghostty => "ghostty"@,
    }
}

/// What a terminal is called.
pub fn backend_name(backend: TerminalBackendPreference) -> (r: &'static str)
    ensures
        r@ == backend_text(backend),
{
    match backend {
        TerminalBackendPreference::Auto => "auto",
        TerminalBackendPreference::Pty => "pty",
        TerminalBackendPreference::Vte => "vte",
        TerminalBackendPreference::Ghostty => "ghostty",
    }
}

} // verus!
