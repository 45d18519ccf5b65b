//! Application settings: terminal font size, scrollback depth and the
//! auto-update switch, with their default values.
//!
//! Reading and parsing the settings file is input/output and lives outside
//! this crate; the types and their defaults are verified here.

use vstd::prelude::*;

verus! {

/// Terminal font size in points.
#[derive(Debug, Clone)]
pub struct FontSize(pub u32);

impl Default for FontSize {
    /// The default font size.
    fn default() -> (r: Self)
        ensures
            r.0 == 15,
    {
        FontSize(15)
    }
}

/// Number of scrollback lines the terminal keeps.
#[derive(Debug, Clone)]
pub struct Scrollback(pub u32);

impl Default for Scrollback {
    /// The default scrollback depth.
    fn default() -> (r: Self)
        ensures
            r.0 == 1000,
    {
        Scrollback(1000)
    }
}

/// Whether the application looks for updates on its own.
#[derive(Debug, Clone)]
pub struct AutoUpdate(pub bool);

impl Default for AutoUpdate {
    /// Auto-update is on by default.
    fn default() -> (r: Self)
        ensures
            r.0 == true,
    {
        AutoUpdate(true)
    }
}

/// Settings of the terminal pane.
#[derive(Debug, Clone)]
pub struct TerminalSettings {
    pub font_size: FontSize,
    pub scrollback: Scrollback,
}

impl Default for TerminalSettings {
    /// Default terminal settings: font size 15, scrollback 1000.
    fn default() -> (r: Self)
        ensures
            r.font_size.0 == 15,
            r.scrollback.0 == 1000,
    {
        TerminalSettings { font_size: FontSize(15), scrollback: Scrollback(1000) }
    }
}

/// Application-wide settings.
#[derive(Debug, Clone)]
pub struct AppSettings {
    pub auto_update: AutoUpdate,
}

impl Default for AppSettings {
    /// Default application settings: auto-update on.
    fn default() -> (r: Self)
        ensures
            r.auto_update.0 == true,
    {
        AppSettings { auto_update: AutoUpdate(true) }
    }
}

/// All settings together, as read from the settings file at startup.
#[derive(Debug, Clone)]
pub struct Settings {
    pub terminal: TerminalSettings,
    pub app: AppSettings,
}

impl Default for Settings {
    /// The settings used when no settings file exists or it cannot be parsed.
    fn default() -> (r: Self)
        ensures
            r.terminal.font_size.0 == 15,
            r.terminal.scrollback.0 == 1000,
            r.app.auto_update.0 == true,
    {
        Settings {
            terminal: TerminalSettings { font_size: FontSize(15), scrollback: Scrollback(1000) },
            app: AppSettings { auto_update: AutoUpdate(true) },
        }
    }
}

} // verus!
