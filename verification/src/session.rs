//! One terminal session: the owner of a PTY's master and writer sides.
//!
//! A session is `Running` from construction until [`TerminalDelegate::close`]
//! and `Closed` afterwards; the closed state is terminal. While running,
//! writes go to the PTY and resizes to its master; once closed, a write
//! returns `0` and a resize is a no-op — neither is an error, because a close
//! racing an in-flight keystroke is ordinary under concurrent use. Closing
//! releases the writer first (flushing and unblocking pending writes), then
//! the master (ending read notifications), then the watcher, and is
//! idempotent. The child process is never killed by a close; its exit is
//! observed by the exit monitor pump.

use vstd::prelude::*;
use crate::envs::EnvEntry;
use crate::envs::build_command_env;
use crate::error::TermError;
use crate::events::SessionEventHandler;
use crate::messages::TermOptions;
use crate::messages::TermOptionsView;
use crate::messages::options_equal;
use crate::pty::PtyMasterHandle;
use crate::pty::PtyWriterHandle;
use crate::pty::anyhow_msg;
use crate::pty::child_pid;
use crate::pty::cmd_arg;
use crate::pty::cmd_cwd;
use crate::pty::cmd_env;
use crate::pty::cmd_env_remove;
use crate::pty::cmd_new;
use crate::pty::io_msg;
use crate::pty::master_clone_reader;
use crate::pty::master_resize;
use crate::pty::master_take_writer;
use crate::pty::open_pty;
use crate::pty::pty_system;
use crate::pty::slave_spawn;
use crate::pty::writer_flush;
use crate::pty::writer_write;
use crate::pump::ExitGate;
use crate::pump::SessionPumps;
use crate::watcher::FsWatcherHandle;
use crate::watcher::fs_debouncer_new;
use crate::watcher::fs_watcher_watch;
use crate::watcher::notify_msg;

verus! {

/// How a session's shell is launched: the shell binary, the version string
/// advertised to it, the directory of the first-party rc scripts, and the
/// user's own rc directory.
#[derive(Debug, Clone)]
pub struct SpawnProfile {
    pub program: String,
    pub version: String,
    pub shell_dir: String,
    pub user_shell_dir: String,
}

impl SpawnProfile {
    /// A copy of this profile, field for field.
    pub fn duplicate(&self) -> (r: SpawnProfile)
        ensures
            r.program == self.program,
            r.version == self.version,
            r.shell_dir == self.shell_dir,
            r.user_shell_dir == self.user_shell_dir,
    {
        SpawnProfile {
            program: self.program.clone(),
            version: self.version.clone(),
            shell_dir: self.shell_dir.clone(),
            user_shell_dir: self.user_shell_dir.clone(),
        }
    }
}

/// The spec-level state of a session.
pub ghost struct SessionView {
    /// The caller-chosen identifier; never changes over the session's life.
    pub id: Seq<char>,
    /// The child's OS process id, where the platform reported one.
    pub pid: Option<u32>,
    /// Whether the session has been closed. Transitions false to true exactly
    /// once and never back.
    pub closed: bool,
    /// The last applied options, if any.
    pub options: Option<TermOptionsView>,
    /// Whether a filesystem watcher is attached.
    pub watching: bool,
}

/// One terminal session. Owns the PTY resources exclusively; the background
/// pumps hold only the cloned reader and the child handle, never the master
/// or writer, which is what lets `close` retract them safely.
pub struct TerminalDelegate<H: SessionEventHandler + Clone + Send + 'static> {
    id: String,
    process_id: Option<u32>,
    is_closed: bool,
    master: Option<PtyMasterHandle>,
    writer: Option<PtyWriterHandle>,
    options: Option<TermOptions>,
    fs_watcher: Option<FsWatcherHandle>,
    event_handler: H,
}

impl<H: SessionEventHandler + Clone + Send + 'static> View for TerminalDelegate<H> {
    type V = SessionView;

    closed spec fn view(&self) -> SessionView {
        SessionView {
            id: self.id@,
            pid: self.process_id,
            closed: self.is_closed,
            options: match self.options {
                Some(o) => Some(o@),
                None => None,
            },
            watching: self.fs_watcher is Some,
        }
    }
}

impl<H: SessionEventHandler + Clone + Send + 'static> TerminalDelegate<H> {
    /// The session's structural invariant: while running it holds both the
    /// writer and the master; once closed it holds neither, and never regains
    /// them.
    pub closed spec fn wf(&self) -> bool {
        &&& (self.is_closed ==> self.writer is None && self.master is None)
        &&& (!self.is_closed ==> self.writer is Some && self.master is Some)
    }

    /// Opens a PTY with the initial 24 by 80 geometry, builds the login-shell
    /// command line (fixed identification and locale variables, the two
    /// shell-integration variables, then the preserved proxy snapshot), and
    /// starts the shell in the given working directory. On success the
    /// session is running with no options applied and no watcher, and the
    /// pump bundle carries an unclaimed exit gate; a PTY or spawn failure is
    /// returned as is, leaving nothing behind.
    pub fn new(
        id: String,
        profile: &SpawnProfile,
        working_dir: &str,
        envs: &Vec<EnvEntry>,
        event_handler: H,
    ) -> (r: core::result::Result<(TerminalDelegate<H>, SessionPumps<H>), TermError>)
        ensures
            r matches Ok(t) ==> {
                &&& t.0.wf()
                &&& t.0@.id == id@
                &&& !t.0@.closed
                &&& t.0@.options is None
                &&& !t.0@.watching
                &&& t.1.id@ == id@
                &&& !t.1.exit_gate.spec_claimed()
            },
            r matches Err(e) ==> e is Pty,
    {
        let sys = pty_system();
        let (master, slave) = match open_pty(&sys, 24, 80) {
            Ok(pair) => pair,
            Err(e) => {
                return Err(TermError::Pty(anyhow_msg(&e)));
            },
        };

        let mut cmd = cmd_new(profile.program.as_str());
        cmd_arg(&mut cmd, "--login");
        let env_list = build_command_env(
            profile.version.as_str(),
            profile.shell_dir.as_str(),
            profile.user_shell_dir.as_str(),
            envs,
        );
        let n: usize = env_list.len();
        let mut i: usize = 0;
        while i < n
            invariant
                n == env_list@.len(),
                i <= n,
            decreases n - i,
        {
            let entry = &env_list[i];
            match entry.1.as_ref() {
                Some(value) => cmd_env(&mut cmd, entry.0.as_str(), value.as_str()),
                None => cmd_env_remove(&mut cmd, entry.0.as_str()),
            }
            i = i + 1;
        }
        cmd_cwd(&mut cmd, working_dir);

        let child = match slave_spawn(slave, cmd) {
            Ok(c) => c,
            Err(e) => {
                return Err(TermError::Pty(anyhow_msg(&e)));
            },
        };
        let process_id = child_pid(&child);

        let writer = match master_take_writer(&master) {
            Ok(w) => w,
            Err(e) => {
                return Err(TermError::Pty(anyhow_msg(&e)));
            },
        };
        let reader = match master_clone_reader(&master) {
            Ok(rd) => rd,
            Err(e) => {
                return Err(TermError::Pty(anyhow_msg(&e)));
            },
        };

        let pumps = SessionPumps {
            id: id.clone(),
            reader,
            child,
            exit_gate: ExitGate::new(),
            handler: event_handler.clone(),
        };
        let delegate = TerminalDelegate {
            id,
            process_id,
            is_closed: false,
            master: Some(master),
            writer: Some(writer),
            options: None,
            fs_watcher: None,
            event_handler,
        };
        Ok((delegate, pumps))
    }

    /// The session's identifier, the same value for the session's whole life.
    pub fn id(&self) -> (r: String)
        ensures
            r@ == self@.id,
    {
        self.id.clone()
    }

    /// Whether the session has been closed.
    pub fn is_closed(&self) -> (r: bool)
        ensures
            r == self@.closed,
    {
        self.is_closed
    }

    /// Whether a filesystem watcher is attached.
    pub fn is_watching(&self) -> (r: bool)
        ensures
            r == self@.watching,
    {
        match self.fs_watcher.as_ref() {
            Some(_) => true,
            None => false,
        }
    }

    /// The child's OS process id, where the platform reported one.
    pub fn process_id(&self) -> (r: Option<u32>)
        ensures
            r == self@.pid,
    {
        self.process_id
    }

    /// Writes bytes to the shell's input. While running, forwards to the PTY
    /// writer and returns the count written (never more than was given); once
    /// closed, returns `0` and changes nothing — a write to a dead session is
    /// not an error by design.
    pub fn write(&mut self, data: &[u8]) -> (r: core::result::Result<usize, TermError>)
        requires
            old(self).wf(),
        ensures
            final(self).wf(),
            final(self)@ == old(self)@,
            old(self)@.closed ==> r == Ok::<usize, TermError>(0usize),
            r matches Ok(n) ==> n <= data@.len(),
            r matches Err(e) ==> (e is Io && !old(self)@.closed),
    {
        match self.writer.take() {
            None => Ok(0),
            Some(mut w) => {
                let res = writer_write(&mut w, data);
                self.writer = Some(w);
                match res {
                    Ok(n) => Ok(n),
                    Err(e) => Err(TermError::Io(io_msg(&e))),
                }
            },
        }
    }

    /// Flushes the shell's input stream; on a closed session this is a no-op.
    pub fn flush(&mut self) -> (r: core::result::Result<(), TermError>)
        requires
            old(self).wf(),
        ensures
            final(self).wf(),
            final(self)@ == old(self)@,
            old(self)@.closed ==> r is Ok,
            r matches Err(e) ==> (e is Io && !old(self)@.closed),
    {
        match self.writer.take() {
            None => Ok(()),
            Some(mut w) => {
                let res = writer_flush(&mut w);
                self.writer = Some(w);
                match res {
                    Ok(_) => Ok(()),
                    Err(e) => Err(TermError::Io(io_msg(&e))),
                }
            },
        }
    }

    /// Applies a text geometry to the PTY. Once closed this is silently a
    /// no-op; while running, a failure of the underlying resize is returned.
    pub fn resize(&mut self, rows: u16, cols: u16) -> (r: core::result::Result<(), TermError>)
        requires
            old(self).wf(),
        ensures
            final(self).wf(),
            final(self)@ == old(self)@,
            old(self)@.closed ==> r is Ok,
            r matches Err(e) ==> (e is Pty && !old(self)@.closed),
    {
        match self.master.as_ref() {
            None => Ok(()),
            Some(m) => {
                match master_resize(m, rows, cols) {
                    Ok(_) => Ok(()),
                    Err(e) => Err(TermError::Pty(anyhow_msg(&e))),
                }
            },
        }
    }

    /// Applies options. Re-applying a value equal to the last applied one is
    /// a no-op and touches nothing, watcher included. Turning the watch off
    /// stores the options and tears the watcher down immediately. Turning it
    /// on attaches a fresh debounced watcher on the options' path first and
    /// stores the options and the watcher only once the watch holds: a path
    /// that cannot be watched is an error of the call and leaves the session
    /// exactly as it was — no partial state is left behind.
    pub fn set_options(&mut self, options: TermOptions) -> (r: core::result::Result<(), TermError>)
        requires
            old(self).wf(),
        ensures
            final(self).wf(),
            final(self)@.id == old(self)@.id,
            final(self)@.pid == old(self)@.pid,
            final(self)@.closed == old(self)@.closed,
            old(self)@.options == Some(options@) ==> (r is Ok && final(self)@ == old(self)@),
            r is Err ==> final(self)@ == old(self)@,
            r matches Err(e) ==> {
                &&& e is Notify
                &&& options@.watch_dirs
                &&& old(self)@.options != Some(options@)
            },
            (r is Ok && old(self)@.options != Some(options@)) ==> final(self)@.options == Some(
                options@,
            ),
            (old(self)@.options != Some(options@) && !options@.watch_dirs)
                ==> (r is Ok && !final(self)@.watching),
            (old(self)@.options != Some(options@) && options@.watch_dirs && r is Ok)
                ==> final(self)@.watching,
    {
        let is_same = match self.options.as_ref() {
            Some(existing) => options_equal(existing, &options),
            None => false,
        };
        if is_same {
            return Ok(());
        }
        if !options.watch_dirs {
            self.options = Some(options);
            self.fs_watcher = None;
            return Ok(());
        }
        let handler = self.event_handler.clone();
        match fs_debouncer_new(self.id.as_str(), handler) {
            Err(e) => Err(TermError::Notify(notify_msg(&e))),
            Ok(mut w) => {
                match fs_watcher_watch(&mut w, options.path.as_str()) {
                    Err(e) => Err(TermError::Notify(notify_msg(&e))),
                    Ok(_) => {
                        self.options = Some(options);
                        self.fs_watcher = Some(w);
                        Ok(())
                    },
                }
            },
        }
    }

    /// The statistics walker for this session, seeded with the session's
    /// child process id: with no known child it is born finished and
    /// yields the zero-valued snapshot.
    pub fn begin_statistics(&self) -> (s: crate::stats::StatSampler)
        ensures
            s@ == crate::stats::spec_sampler_init(self@.pid),
    {
        crate::stats::StatSampler::new(self.process_id)
    }

    /// Closes the session: releases the writer, then the master, then the
    /// watcher, and marks the session closed. Idempotent — closing a closed
    /// session changes nothing. The child process is not killed.
    pub fn close(&mut self)
        ensures
            final(self).wf(),
            final(self)@.closed,
            !final(self)@.watching,
            final(self)@.id == old(self)@.id,
            final(self)@.pid == old(self)@.pid,
            final(self)@.options == old(self)@.options,
            (old(self)@.closed && !old(self)@.watching) ==> final(self)@ == old(self)@,
    {
        self.writer = None;
        self.master = None;
        self.fs_watcher = None;
        self.is_closed = true;
    }
}

} // verus!
