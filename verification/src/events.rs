//! The interface through which a session reports upward.
//!
//! The caller supplies one implementation per session at creation; the
//! session's background pumps and its filesystem watcher call it. Data and
//! exit events for one session arrive from two independent pumps with no
//! enforced relative order.

use vstd::prelude::*;

verus! {

/// Receives a session's asynchronous events.
pub trait SessionEventHandler {
    /// Raw output bytes read from the shell.
    fn on_data(&self, id: &str, data: &[u8]);

    /// The child process exited with the given code. Delivered at most once
    /// per session.
    fn on_exit(&self, id: &str, exit_code: u32);

    /// The watched working directory changed; one call carries every path
    /// observed within one debounce window.
    fn on_fs_changed(&self, id: &str, paths: Vec<String>);
}

/// Hands one batch of changed paths to the event handler; the filesystem
/// watcher's callback funnels through here. A window whose batch carries no
/// finished path — it held only the watcher's interim still-changing
/// markers — delivers nothing.
pub(crate) fn deliver_fs_changed<H: SessionEventHandler>(handler: &H, id: &str, paths: Vec<
    String,
>) {
    if paths.len() > 0 {
        handler.on_fs_changed(id, paths);
    }
}

} // verus!
