//! Shell integration: where the first-party rc scripts live, which files they
//! are installed as, and the planning of the one-line hook appended to the
//! user's own `.zshrc`.
//!
//! All filesystem reads and writes stay with the caller; this module computes
//! paths and file contents.

use vstd::prelude::*;
use crate::strutil::contains_sub;
use crate::strutil::escape_shell_path;
use crate::strutil::path_join;
use crate::strutil::spec_contains_sub;
use crate::strutil::spec_escape_shell_path;
use crate::strutil::spec_path_join;
use crate::strutil::spec_sub_at;

verus! {

/// The directory holding the rc scripts a spawned shell loads: the `Shell`
/// directory under the application data directory, with a separate variant
/// for debug builds.
pub fn get_shell_path(app_data_dir: &str, debug_build: bool) -> (r: String)
    ensures
        debug_build ==> r@ == spec_path_join(spec_path_join(app_data_dir@, "Shell"@), "zsh_debug"@),
        !debug_build ==> r@ == spec_path_join(spec_path_join(app_data_dir@, "Shell"@), "zsh"@),
{
    let base = path_join(app_data_dir, "Shell");
    if debug_build {
        path_join(base.as_str(), "zsh_debug")
    } else {
        path_join(base.as_str(), "zsh")
    }
}

/// The bundled rc scripts and the file name each is installed under in the
/// shell directory, in installation order.
pub fn shell_copy_files() -> (r: Vec<(&'static str, &'static str)>)
    ensures
        r@.len() == 4,
        r@[0].0@ == "t1-rc.zsh"@ && r@[0].1@ == ".zshrc"@,
        r@[1].0@ == "t1-profile.zsh"@ && r@[1].1@ == ".zprofile"@,
        r@[2].0@ == "t1-env.zsh"@ && r@[2].1@ == ".zshenv"@,
        r@[3].0@ == "t1-login.zsh"@ && r@[3].1@ == ".zlogin"@,
{
    let mut v: Vec<(&'static str, &'static str)> = Vec::new();
    v.push(("t1-rc.zsh", ".zshrc"));
    v.push(("t1-profile.zsh", ".zprofile"));
    v.push(("t1-env.zsh", ".zshenv"));
    v.push(("t1-login.zsh", ".zlogin"));
    v
}

/// The path of the hook script inside the shell-integration directory.
pub fn make_precommit_dir(shell_path: &str) -> (r: String)
    ensures
        r@ == spec_path_join(shell_path@, "t1.zsh"@),
{
    path_join(shell_path, "t1.zsh")
}

/// The marker block appended to the user's `.zshrc`: a comment line naming
/// the product and a `source` line loading the hook script, its path
/// space-escaped.
pub open spec fn spec_install_marker(shell_dir: Seq<char>) -> Seq<char> {
    "\n# Terminal One\nsource "@ + spec_escape_shell_path(
        spec_path_join(shell_dir, "t1.zsh"@),
    )
}

/// What installing the shell hook into an rc file comes to: whether the
/// marker block is already present, and the file's new content when it is
/// not.
pub struct InstallPlan {
    /// The marker block was already in the existing content; nothing to
    /// write.
    pub already_installed: bool,
    /// The content to write: the marker block, a newline, then the existing
    /// content. Equal to the existing content when already installed.
    pub new_content: String,
}

/// Plans the installation of the shell hook: detects whether the existing rc
/// content already holds the marker block for this shell directory, and if
/// not, prepends the block and a newline to the content.
pub fn plan_install_script(shell_dir: &str, existing: &str) -> (r: InstallPlan)
    ensures
        r.already_installed == spec_contains_sub(existing@, spec_install_marker(shell_dir@)),
        !r.already_installed ==> r.new_content@ == spec_install_marker(shell_dir@) + "\n"@
            + existing@,
        r.already_installed ==> r.new_content@ == existing@,
{
    let hook_path = make_precommit_dir(shell_dir);
    let escaped = escape_shell_path(hook_path.as_str());
    let mut marker: String = "\n# Terminal One\nsource ".to_owned();
    marker.append(escaped.as_str());
    assert(marker@ =~= spec_install_marker(shell_dir@));
    if contains_sub(existing, marker.as_str()) {
        InstallPlan { already_installed: true, new_content: existing.to_owned() }
    } else {
        let mut content = marker;
        content.append("\n");
        content.append(existing);
        assert(content@ =~= spec_install_marker(shell_dir@) + "\n"@ + existing@);
        InstallPlan { already_installed: false, new_content: content }
    }
}

/// Law: planning an installation into content that an earlier plan produced
/// finds the marker already present — the hook is never inserted twice.
pub proof fn lemma_install_idempotent(shell_dir: Seq<char>, existing: Seq<char>)
    ensures
        spec_contains_sub(
            spec_install_marker(shell_dir) + "\n"@ + existing,
            spec_install_marker(shell_dir),
        ),
{
    let marker = spec_install_marker(shell_dir);
    let whole = marker + "\n"@ + existing;
    assert(whole.subrange(0, marker.len() as int) =~= marker);
    assert(spec_sub_at(whole, marker, 0));
}

} // verus!
