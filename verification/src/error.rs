//! The error type the library surfaces to its caller.
//!
//! Only failures that are fatal to the call cross this boundary: PTY or
//! process allocation failure, a watcher that could not be set up, and a
//! missing theme directory. Outside errors are carried as their rendered
//! message; the conversion from each outside error type to [`TermError`] is done
//! in verified code next to the call that produced it.

use vstd::prelude::*;

verus! {

/// Shorthand for a result that fails with the library's own [`TermError`].
pub type Result<T> = core::result::Result<T, TermError>;

/// What a fallible library call can fail with.
#[derive(Debug, Clone)]
pub enum TermError {
    /// An input/output failure, carried as its rendered message.
    Io(String),
    /// PTY allocation or child-process creation failed.
    Pty(String),
    /// The filesystem watcher could not be created or attached.
    Notify(String),
    /// A TOML document could not be parsed.
    TomlError(String),
    /// The theme directory held no usable theme.
    NoThemesFound,
}

} // verus!
