//! The per-session background pumps: the output reader and the exit monitor.
//!
//! Each live session has two pumps. The reader pump drains the PTY's output
//! and hands every non-empty read to the event handler as one data event; a
//! zero-byte read is end-of-file and ends the pump, as does a read error. The
//! exit monitor waits for the child once and delivers at most one exit event
//! per session, guarded by the session's [`ExitGate`].
//!
//! The pumps block in operating-system calls, so the caller runs each on a
//! thread of its own: the reader as a loop over [`reader_pump_step`], the
//! monitor as one call of [`run_exit_monitor`].

use vstd::prelude::*;
use crate::events::SessionEventHandler;
use crate::pty::PtyChildHandle;
use crate::pty::PtyReaderHandle;
use crate::pty::child_wait;
use crate::pty::reader_read;
use crate::pty::status_exit_code;

verus! {

/// A one-shot permission to deliver the session's exit event: granted to
/// the first taker only; everyone later is refused.
pub struct ExitGate {
    claimed: bool,
}

impl ExitGate {
    /// True once the permission has been handed out.
    pub closed spec fn spec_claimed(&self) -> bool {
        self.claimed
    }

    /// A fresh gate, not yet claimed.
    pub fn new() -> (g: ExitGate)
        ensures
            !g.spec_claimed(),
    {
        ExitGate { claimed: false }
    }

    /// Asks for the permission: the first caller receives it.
    pub fn try_claim(&mut self) -> (granted: bool)
        ensures
            granted == !old(self).spec_claimed(),
            final(self).spec_claimed(),
    {
        let granted = !self.claimed;
        self.claimed = true;
        granted
    }
}

/// Law: however many times delivery is attempted against one gate, at most
/// one attempt succeeds. The boolean parameters stand for the state
/// around two attempts with outcomes `delivered1` and `delivered2`,
/// under the contract of [`run_exit_monitor`].

pub proof fn lemma_exit_delivered_at_most_once(
    claimed0: bool,
    claimed1: bool,
    claimed2: bool,
    delivered1: bool,
    delivered2: bool,
)
    requires
        delivered1 ==> (!claimed0 && claimed1),
        !delivered1 ==> claimed1 == claimed0,
        delivered2 ==> (!claimed1 && claimed2),
        !delivered2 ==> claimed2 == claimed1,
    ensures
        !(delivered1 && delivered2),
{
}

/// Everything a session's two background pumps need, handed out at session
/// creation: the cloned PTY reader for the reader pump, the child handle and
/// the exit gate for the exit monitor, plus the session id and a handle on
/// the event handler for both.
pub struct SessionPumps<H: SessionEventHandler + Clone + Send + 'static> {
    pub id: String,
    pub reader: PtyReaderHandle,
    pub child: PtyChildHandle,
    pub exit_gate: ExitGate,
    pub handler: H,
}

/// What one turn of the reader pump did: delivered a data event of `n` bytes,
/// or ended the pump (end-of-file or a read error).
#[derive(Debug, PartialEq, Eq)]
pub enum PumpStep {
    Delivered(usize),
    Ended,
}

/// A read outcome that ends the reader pump: a zero-byte read (end-of-file)
/// or a read error.
pub open spec fn spec_read_ends(outcome: core::result::Result<usize, std::io::Error>) -> bool {
    match outcome {
        Ok(n) => n == 0,
        Err(_) => true,
    }
}

/// The reader pump's whole decision for one read outcome, stated exactly:
/// a successful read of `n > 0` bytes is delivered, and the delivered data
/// is precisely the first `n` bytes of the buffer, in order — nothing
/// invented, dropped or reordered; a zero-byte read (end-of-file) or a read
/// error ends the pump and delivers nothing.
pub fn reader_step_of(outcome: core::result::Result<usize, std::io::Error>, buf: &Vec<u8>) -> (r: (
    PumpStep,
    Vec<u8>,
))
    requires
        outcome matches Ok(n) ==> n <= buf@.len(),
    ensures
        (r.0 is Ended) == spec_read_ends(outcome),
        r.0 is Ended ==> r.1@.len() == 0,
        outcome matches Ok(n) ==> n == 0 || (r.0 == PumpStep::Delivered(n) && r.1@
            == buf@.subrange(0, n as int)),
{
    match outcome {
        Err(_) => (PumpStep::Ended, Vec::new()),
        Ok(n) => {
            if n == 0 {
                (PumpStep::Ended, Vec::new())
            } else {
                let mut data: Vec<u8> = Vec::new();
                let mut i: usize = 0;
                while i < n
                    invariant
                        i <= n,
                        n <= buf@.len(),
                        data@ == buf@.subrange(0, i as int),
                    decreases n - i,
                {
                    data.push(buf[i]);
                    assert(data@ =~= buf@.subrange(0, i + 1 as int));
                    i = i + 1;
                }
                (PumpStep::Delivered(n), data)
            }
        },
    }
}

/// A wait outcome and permission state under which the exit event is due:
/// the wait succeeded and the permission had not been handed out before.
pub open spec fn spec_exit_due(
    outcome: core::result::Result<portable_pty::ExitStatus, std::io::Error>,
    claimed: bool,
) -> bool {
    match outcome {
        Ok(_) => !claimed,
        Err(_) => false,
    }
}

/// The exit monitor's whole decision for one wait outcome, stated exactly:
/// the exit event — carrying the exited child's code — is due exactly when
/// the wait succeeded and the permission is still available; a successful
/// wait uses the permission up either way, and a failed wait changes
/// nothing and delivers nothing.
pub fn exit_decision(
    outcome: core::result::Result<portable_pty::ExitStatus, std::io::Error>,
    gate: &mut ExitGate,
) -> (r: Option<u32>)
    ensures
        (r is Some) == spec_exit_due(outcome, old(gate).spec_claimed()),
        outcome is Ok ==> final(gate).spec_claimed(),
        outcome is Err ==> final(gate).spec_claimed() == old(gate).spec_claimed(),
{
    match outcome {
        Err(_) => None,
        Ok(status) => {
            if gate.try_claim() {
                Some(status_exit_code(&status))
            } else {
                None
            }
        },
    }
}

/// A scratch buffer for the reader pump, allocated once per pump.
pub fn make_read_buffer() -> (buf: Vec<u8>)
    ensures
        buf@.len() == 4096,
{
    let buf: Vec<u8> = vec![0u8; 4096];
    buf
}

/// One turn of the reader pump: reads once from the PTY and acts on
/// [`reader_step_of`]'s decision — a successful non-empty read is handed to
/// the handler as one data event holding exactly the bytes read, end-of-file
/// or a read error ends the pump with nothing delivered. What is decided and
/// delivered for each possible read outcome is pinned by `reader_step_of`'s
/// contract; which outcome the operating system produced, only the read
/// itself decides. The pump never delivers an exit event.
pub fn reader_pump_step<H: SessionEventHandler>(
    reader: &mut PtyReaderHandle,
    buf: &mut Vec<u8>,
    id: &str,
    handler: &H,
) -> (step: PumpStep)
    requires
        old(buf)@.len() > 0,
    ensures
        final(buf)@.len() == old(buf)@.len(),
        step matches PumpStep::Delivered(n) ==> 0 < n <= final(buf)@.len(),
{
    let outcome = reader_read(reader, buf);
    let (step, data) = reader_step_of(outcome, buf);
    match &step {
        PumpStep::Delivered(_) => handler.on_data(id, data.as_slice()),
        PumpStep::Ended => {},
    }
    step
}

/// The exit monitor: blocks until the child exits, then acts on
/// [`exit_decision`] — the session's exit event is delivered exactly when
/// the wait succeeded and the permission is still available, so a wait
/// failure delivers nothing and a completed wait delivers once. What is decided for
/// each possible wait outcome is pinned by `exit_decision`'s contract;
/// which outcome the wait produced, only the operating system decides. With
/// [`lemma_exit_delivered_at_most_once`] this bounds deliveries per session
/// at one, no matter how often the reader pump turned meanwhile.
pub fn run_exit_monitor<H: SessionEventHandler>(
    child: &mut PtyChildHandle,
    gate: &mut ExitGate,
    id: &str,
    handler: &H,
) -> (delivered: bool)
    ensures
        delivered ==> (!old(gate).spec_claimed() && final(gate).spec_claimed()),
        !delivered ==> final(gate).spec_claimed() == old(gate).spec_claimed(),
        old(gate).spec_claimed() ==> !delivered,
{
    let outcome = child_wait(child);
    match exit_decision(outcome, gate) {
        Some(code) => {
            handler.on_exit(id, code);
            true
        },
        None => false,
    }
}

} // verus!
