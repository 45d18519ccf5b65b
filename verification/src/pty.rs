//! Trusted boundary around the `portable-pty` library.
//!
//! Everything the library knows about a pseudo-terminal goes through the
//! handles and wrappers in this module. Each wrapper's body makes exactly the
//! outside call its doc comment names; the contracts state only what the
//! outside library's documentation promises. The handles are opaque: the
//! PTY's master, writer, reader and child sides are trait objects of the
//! outside library and cannot be declared to the verifier, so each is held in
//! a struct whose body the verifier does not read.

use vstd::prelude::*;

verus! {

/// Declares `anyhow::Error`, the error type of `portable-pty`'s fallible
/// calls, so it can appear in wrapper signatures.
#[verifier::external_type_specification]
#[verifier::external_body]
pub struct ExAnyhowError(anyhow::Error);

/// Declares `std::io::Error`, returned by reads, writes and waits on the PTY.
#[verifier::external_type_specification]
#[verifier::external_body]
pub struct ExIoError(std::io::Error);

/// Declares `portable_pty::ExitStatus`, the exit report of the child process.
#[verifier::external_type_specification]
#[verifier::external_body]
pub struct ExExitStatus(portable_pty::ExitStatus);

/// Declares `portable_pty::CommandBuilder`, the child command line under
/// construction.
#[verifier::external_type_specification]
#[verifier::external_body]
pub struct ExCommandBuilder(portable_pty::CommandBuilder);

/// The platform's PTY opener, from `portable_pty::native_pty_system`.
#[verifier::external_body]
pub struct PtySystemHandle {
    inner: Box<dyn portable_pty::PtySystem + Send>,
}

/// The master side of one PTY pair.
#[verifier::external_body]
pub struct PtyMasterHandle {
    inner: Box<dyn portable_pty::MasterPty + Send>,
}

/// The slave side of one PTY pair; consumed when the child is spawned.
#[verifier::external_body]
pub struct PtySlaveHandle {
    inner: Box<dyn portable_pty::SlavePty + Send>,
}

/// The PTY input stream: what is written here reaches the shell.
#[verifier::external_body]
pub struct PtyWriterHandle {
    inner: Box<dyn std::io::Write + Send>,
}

/// A cloned output stream of the PTY: the shell's output is read from here.
#[verifier::external_body]
pub struct PtyReaderHandle {
    inner: Box<dyn std::io::Read + Send>,
}

/// The spawned child process.
#[verifier::external_body]
pub struct PtyChildHandle {
    inner: Box<dyn portable_pty::Child + Send + Sync>,
}

/// Relies on `portable_pty::native_pty_system`: yields the PTY opener for the
/// running platform.
#[verifier::external_body]
pub(crate) fn pty_system() -> PtySystemHandle {
    PtySystemHandle { inner: portable_pty::native_pty_system() }
}

/// Relies on `PtySystem::openpty`: opens one master/slave PTY pair with the
/// given text geometry (pixel sizes left zero).
#[verifier::external_body]
pub(crate) fn open_pty(sys: &PtySystemHandle, rows: u16, cols: u16) -> (r: core::result::Result<
    (PtyMasterHandle, PtySlaveHandle),
    anyhow::Error,
>) {
    let size = portable_pty::PtySize { rows, cols, pixel_width: 0, pixel_height: 0 };
    match sys.inner.openpty(size) {
        Ok(pair) => Ok((
            PtyMasterHandle { inner: pair.master },
            PtySlaveHandle { inner: pair.slave },
        )),
        Err(e) => Err(e),
    }
}

/// Relies on `CommandBuilder::new`: a command line for the given program.
#[verifier::external_body]
pub(crate) fn cmd_new(program: &str) -> portable_pty::CommandBuilder {
    portable_pty::CommandBuilder::new(program)
}

/// Relies on `CommandBuilder::arg`: appends one argument.
#[verifier::external_body]
pub(crate) fn cmd_arg(cmd: &mut portable_pty::CommandBuilder, arg: &str) {
    cmd.arg(arg);
}

/// Relies on `CommandBuilder::env`: sets one environment variable for the
/// child.
#[verifier::external_body]
pub(crate) fn cmd_env(cmd: &mut portable_pty::CommandBuilder, key: &str, value: &str) {
    cmd.env(key, value);
}

/// Relies on `CommandBuilder::env_remove`: unsets one environment variable
/// for the child.
#[verifier::external_body]
pub(crate) fn cmd_env_remove(cmd: &mut portable_pty::CommandBuilder, key: &str) {
    cmd.env_remove(key);
}

/// Relies on `CommandBuilder::cwd`: sets the child's working directory.
#[verifier::external_body]
pub(crate) fn cmd_cwd(cmd: &mut portable_pty::CommandBuilder, dir: &str) {
    cmd.cwd(dir);
}

/// Relies on `SlavePty::spawn_command`: starts the child process on the slave
/// side, which is dropped afterwards as its only purpose was the spawn.
#[verifier::external_body]
pub(crate) fn slave_spawn(slave: PtySlaveHandle, cmd: portable_pty::CommandBuilder) -> (r:
    core::result::Result<PtyChildHandle, anyhow::Error>) {
    match slave.inner.spawn_command(cmd) {
        Ok(child) => Ok(PtyChildHandle { inner: child }),
        Err(e) => Err(e),
    }
}

/// Relies on `Child::process_id`: the OS process id of the child, where the
/// platform exposes one.
#[verifier::external_body]
pub(crate) fn child_pid(child: &PtyChildHandle) -> Option<u32> {
    child.inner.process_id()
}

/// Relies on `Child::wait`: blocks until the child exits and reports its exit
/// status.
#[verifier::external_body]
pub(crate) fn child_wait(child: &mut PtyChildHandle) -> (r: core::result::Result<
    portable_pty::ExitStatus,
    std::io::Error,
>) {
    child.inner.wait()
}

/// Relies on `ExitStatus::exit_code`: the numeric exit code the status was
/// built from.
#[verifier::external_body]
pub(crate) fn status_exit_code(status: &portable_pty::ExitStatus) -> u32 {
    status.exit_code()
}

/// Relies on `MasterPty::take_writer`: the writable side of the PTY; valid to
/// take once per PTY, which the session's construction respects.
#[verifier::external_body]
pub(crate) fn master_take_writer(master: &PtyMasterHandle) -> (r: core::result::Result<
    PtyWriterHandle,
    anyhow::Error,
>) {
    match master.inner.take_writer() {
        Ok(w) => Ok(PtyWriterHandle { inner: w }),
        Err(e) => Err(e),
    }
}

/// Relies on `MasterPty::try_clone_reader`: a readable handle onto the PTY's
/// output stream.
#[verifier::external_body]
pub(crate) fn master_clone_reader(master: &PtyMasterHandle) -> (r: core::result::Result<
    PtyReaderHandle,
    anyhow::Error,
>) {
    match master.inner.try_clone_reader() {
        Ok(rd) => Ok(PtyReaderHandle { inner: rd }),
        Err(e) => Err(e),
    }
}

/// Relies on `MasterPty::resize`: applies the given text geometry to the PTY
/// (pixel sizes left zero).
#[verifier::external_body]
pub(crate) fn master_resize(master: &PtyMasterHandle, rows: u16, cols: u16) -> (r:
    core::result::Result<(), anyhow::Error>) {
    master.inner.resize(portable_pty::PtySize { rows, cols, pixel_width: 0, pixel_height: 0 })
}

/// Relies on std's `Write::write` on the PTY writer: on success the written
/// count never exceeds the buffer's length.
#[verifier::external_body]
pub(crate) fn writer_write(writer: &mut PtyWriterHandle, data: &[u8]) -> (r: core::result::Result<
    usize,
    std::io::Error,
>)
    ensures
        r matches Ok(n) ==> n <= data@.len(),
{
    writer.inner.write(data)
}

/// Relies on std's `Write::flush` on the PTY writer.
#[verifier::external_body]
pub(crate) fn writer_flush(writer: &mut PtyWriterHandle) -> (r: core::result::Result<
    (),
    std::io::Error,
>) {
    writer.inner.flush()
}

/// Relies on std's `Read::read` on the PTY reader: fills a prefix of the
/// buffer in place; on success the count never exceeds the buffer's length,
/// and the buffer keeps its length either way.
#[verifier::external_body]
pub(crate) fn reader_read(reader: &mut PtyReaderHandle, buf: &mut Vec<u8>) -> (r:
    core::result::Result<usize, std::io::Error>)
    ensures
        final(buf)@.len() == old(buf)@.len(),
        r matches Ok(n) ==> n <= old(buf)@.len(),
{
    reader.inner.read(buf.as_mut_slice())
}

/// Relies on `anyhow::Error`'s display form: the error rendered as text.
#[verifier::external_body]
pub(crate) fn anyhow_msg(e: &anyhow::Error) -> String {
    format!("{}", e)
}

/// Relies on `std::io::Error`'s display form: the error rendered as text.
#[verifier::external_body]
pub(crate) fn io_msg(e: &std::io::Error) -> String {
    format!("{}", e)
}

} // verus!
