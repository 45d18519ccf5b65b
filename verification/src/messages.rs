//! Plain message types exchanged with the application shell.

use vstd::prelude::*;

verus! {

/// The spec-level value of a [`TermOptions`].
pub ghost struct TermOptionsView {
    pub path: Seq<char>,
    pub watch_dirs: bool,
}

/// Per-session options the caller may re-apply at any time: the directory the
/// session works in, and whether that directory is watched for filesystem
/// changes. Re-applying an identical value is a no-op.
#[derive(Debug, Clone)]
pub struct TermOptions {
    pub path: String,
    pub watch_dirs: bool,
}

impl View for TermOptions {
    type V = TermOptionsView;

    open spec fn view(&self) -> TermOptionsView {
        TermOptionsView { path: self.path@, watch_dirs: self.watch_dirs }
    }
}

/// Whether two option values are equal, field by field.
pub fn options_equal(a: &TermOptions, b: &TermOptions) -> (r: bool)
    ensures
        r == (a@ == b@),
{
    let same = a.path == b.path && a.watch_dirs == b.watch_dirs;
    proof {
        if a@.path == b@.path && a@.watch_dirs == b@.watch_dirs {
            assert(a@ == b@);
        }
    }
    same
}

/// One entry of a native context menu.
#[derive(Debug, Clone)]
pub struct MenuItem {
    pub title: String,
    pub key: String,
}

/// Reports which entry of which context menu was activated.
#[derive(Debug, Clone)]
pub struct OpenContextMenuClickedMessage {
    pub id: String,
    pub key: String,
}

} // verus!
