//! Core of a terminal-emulator application: pseudo-terminal (PTY) sessions,
//! a session registry, background pump logic, process statistics sampling,
//! shell-integration helpers and application settings.
//!
//! The PTY itself, the filesystem watcher and the TOML reader are outside
//! libraries reached through a small set of trusted wrappers; everything that
//! decides or computes is verified.

pub mod envs;
pub mod error;
pub mod events;
pub mod fsutil;
pub mod messages;
pub mod pty;
pub mod pump;
pub mod registry;
pub mod session;
pub mod settings;
pub mod shell;
pub mod statparse;
pub mod stats;
pub mod theme;
pub mod updater;
pub mod strutil;
pub mod watcher;
