//! Trusted boundary around `notify-debouncer-mini`, the debounced filesystem
//! watcher.
//!
//! Raw filesystem events are coalesced by the outside library over a
//! one-second window; at window expiry its callback receives every event of
//! the window in one batch, which is converted to a plain path list and
//! handed to the session's event handler as a single filesystem-changed
//! event.

use vstd::prelude::*;
use crate::events::SessionEventHandler;
use crate::events::deliver_fs_changed;

verus! {

/// Declares `notify::Error`, the error type of watcher creation and
/// attachment.
#[verifier::external_type_specification]
#[verifier::external_body]
pub struct ExNotifyError(notify_debouncer_mini::notify::Error);

/// A running debounced watcher; dropping it stops the watch.
#[verifier::external_body]
pub struct FsWatcherHandle {
    inner: notify_debouncer_mini::Debouncer<notify_debouncer_mini::notify::RecommendedWatcher>,
}

/// Relies on `notify_debouncer_mini::new_debouncer` with a one-second
/// window: at window expiry the callback receives the window's events in one
/// batch. An event of kind `Any` is a path's final, debounced change notice;
/// a kind `AnyContinuous` event is the library's interim marker for a path
/// still being written, whose final notice follows in a later batch, so only
/// the final notices are converted to paths and handed on through
/// `deliver_fs_changed`. Batches the library reports as errors are dropped,
/// as watcher runtime errors are best-effort.
#[verifier::external_body]
pub(crate) fn fs_debouncer_new<H: SessionEventHandler + Send + 'static>(id: &str, handler: H) -> (r:
    core::result::Result<FsWatcherHandle, notify_debouncer_mini::notify::Error>) {
    let own_id: String = id.to_string();
    let cb = move |res: notify_debouncer_mini::DebounceEventResult| {
        if let Ok(events) = res {
            let paths = events.into_iter().filter_map(|e| match e.kind {
                notify_debouncer_mini::DebouncedEventKind::Any => Some(e.path.to_string_lossy().to_string()),
                _ => None,
            }).collect();
            deliver_fs_changed(&handler, own_id.as_str(), paths);
        }
    };
    match notify_debouncer_mini::new_debouncer(std::time::Duration::from_secs(1), cb) {
        Ok(d) => Ok(FsWatcherHandle { inner: d }),
        Err(e) => Err(e),
    }
}

/// Relies on `Watcher::watch` behind `Debouncer::watcher`: watches the given
/// directory recursively; fails when the path cannot be watched.
#[verifier::external_body]
pub(crate) fn fs_watcher_watch(w: &mut FsWatcherHandle, path: &str) -> (r: core::result::Result<
    (),
    notify_debouncer_mini::notify::Error,
>) {
    w.inner.watcher().watch(
        std::path::Path::new(path),
        notify_debouncer_mini::notify::RecursiveMode::Recursive,
    )
}

/// Relies on `notify::Error`'s display form: the error rendered as text.
#[verifier::external_body]
pub(crate) fn notify_msg(e: &notify_debouncer_mini::notify::Error) -> String {
    format!("{}", e)
}

} // verus!
