//! The decisions of the update-check loop and the identification string it
//! sends. The network call, the platform query and the loop's sleeping are
//! the caller's; given one check's outcome, the next step is decided here.

use vstd::prelude::*;

verus! {

/// How one round of the update check ended.
#[derive(Debug, Clone, Copy, PartialEq, Eq, Structural)]
pub enum UpdateCheckOutcome {
    /// An update was found and stored; the loop stops.
    UpdateFound,
    /// Everything is current; ask again later.
    UpToDate,
    /// The check failed; retry sooner.
    CheckFailed,
}

/// What the update loop does after one check: stop when an update was
/// found, wait two hours when up to date, and half an hour after a failed
/// check.
pub fn update_wait_secs(outcome: UpdateCheckOutcome) -> (r: Option<u64>)
    ensures
        (outcome is UpdateFound) <==> (r is None),
        outcome is UpToDate ==> r == Some(7200u64),
        outcome is CheckFailed ==> r == Some(1800u64),
{
    match outcome {
        UpdateCheckOutcome::UpdateFound => None,
        UpdateCheckOutcome::UpToDate => Some(7200),
        UpdateCheckOutcome::CheckFailed => Some(1800),
    }
}

/// The user-agent string the update check identifies itself with:
/// `TerminalOne/<version> (<platform>; <arch>; <os version>)`.
pub fn build_user_agent(version: &str, platform: &str, arch: &str, os_version: &str) -> (r: String)
    ensures
        r@ == "TerminalOne/"@ + version@ + " ("@ + platform@ + "; "@ + arch@ + "; "@ + os_version@
            + ")"@,
{
    let mut r: String = "TerminalOne/".to_owned();
    r.append(version);
    r.append(" (");
    r.append(platform);
    r.append("; ");
    r.append(arch);
    r.append("; ");
    r.append(os_version);
    r.append(")");
    assert(r@ =~= "TerminalOne/"@ + version@ + " ("@ + platform@ + "; "@ + arch@ + "; "@
        + os_version@ + ")"@);
    r
}

} // verus!
