//! End-to-end session tests against a real PTY and shell: the registry,
//! writes, resizes, closing, the two pumps, and identifier reuse.

use std::sync::Arc;
use std::sync::Mutex;
use portable_pty::ExitStatus;
use terminal_one::envs::build_preserved_envs;
use terminal_one::error::TermError;
use terminal_one::events::SessionEventHandler;
use terminal_one::messages::TermOptions;
use terminal_one::pump::ExitGate;
use terminal_one::pump::PumpStep;
use terminal_one::pump::exit_decision;
use terminal_one::pump::make_read_buffer;
use terminal_one::pump::reader_pump_step;
use terminal_one::pump::reader_step_of;
use terminal_one::pump::run_exit_monitor;
use terminal_one::registry::AppState;
use terminal_one::session::SpawnProfile;
use terminal_one::session::TerminalDelegate;
use terminal_one::settings::Settings;

/// Records every event a session delivers.
#[derive(Clone)]
struct Recorder {
    data: Arc<Mutex<Vec<(String, Vec<u8>)>>>,
    exits: Arc<Mutex<Vec<(String, u32)>>>,
    fs_changes: Arc<Mutex<Vec<(String, Vec<String>)>>>,
}

impl Recorder {
    fn new() -> Recorder {
        Recorder {
            data: Arc::new(Mutex::new(Vec::new())),
            exits: Arc::new(Mutex::new(Vec::new())),
            fs_changes: Arc::new(Mutex::new(Vec::new())),
        }
    }
}

impl SessionEventHandler for Recorder {
    fn on_data(&self, id: &str, data: &[u8]) {
        self.data.lock().unwrap().push((id.to_string(), data.to_vec()));
    }

    fn on_exit(&self, id: &str, exit_code: u32) {
        self.exits.lock().unwrap().push((id.to_string(), exit_code));
    }

    fn on_fs_changed(&self, id: &str, paths: Vec<String>) {
        self.fs_changes.lock().unwrap().push((id.to_string(), paths));
    }
}

fn test_profile() -> SpawnProfile {
    SpawnProfile {
        program: "/bin/bash".to_string(),
        version: "0.1.0".to_string(),
        shell_dir: "/tmp".to_string(),
        user_shell_dir: "/tmp".to_string(),
    }
}

fn empty_preserved() -> Vec<(String, Option<String>)> {
    let values: Vec<Option<String>> = vec![None, None, None, None, None, None, None, None];
    build_preserved_envs(&values)
}

fn new_registry() -> AppState<Recorder> {
    AppState::new(test_profile(), "/tmp".to_string(), Settings::default(), empty_preserved())
}

#[test]
fn p8_echo_reaches_data_events_and_one_exit() {
    let recorder = Recorder::new();
    let mut app = new_registry();
    let mut pumps = app
        .new_terminal("s1".to_string(), Some("/tmp".to_string()), recorder.clone())
        .expect("PTY spawn failed");
    assert_eq!(pumps.id, "s1");

    let n = app.write("s1", b"echo hi\nexit\n").expect("write failed");
    assert!(n > 0);

    // Drain the reader pump on this thread until end of file.
    let mut buf = make_read_buffer();
    loop {
        match reader_pump_step(&mut pumps.reader, &mut buf, "s1", &pumps.handler) {
            PumpStep::Ended => break,
            PumpStep::Delivered(_) => {},
        }
    }
    let all: Vec<u8> = recorder
        .data
        .lock()
        .unwrap()
        .iter()
        .flat_map(|(_, d)| d.clone())
        .collect();
    let text = String::from_utf8_lossy(&all).to_string();
    assert!(text.contains("hi"), "shell output did not surface: {:?}", text);

    // Exactly one exit event per session lifetime, however often the
    // reader pump looped before.
    let delivered_first = run_exit_monitor(&mut pumps.child, &mut pumps.exit_gate, "s1", &pumps.handler);
    let delivered_again = run_exit_monitor(&mut pumps.child, &mut pumps.exit_gate, "s1", &pumps.handler);
    assert!(delivered_first);
    assert!(!delivered_again);
    assert_eq!(recorder.exits.lock().unwrap().len(), 1);

    app.remove_terminal_by_id("s1");
    assert!(!app.has_terminal("s1"));
}

#[test]
fn p9_write_after_close_is_zero_and_quiet() {
    let recorder = Recorder::new();
    let (mut session, _pumps) = TerminalDelegate::new(
        "s2".to_string(),
        &test_profile(),
        "/tmp",
        &empty_preserved(),
        recorder.clone(),
    )
    .expect("PTY spawn failed");

    session.close();
    assert!(session.is_closed());

    let written = session.write(b"echo nope\n").expect("write errored");
    assert_eq!(written, 0);

    // Closing again stays a no-op, and writes keep returning zero.
    session.close();
    assert_eq!(session.write(b"x").expect("write errored"), 0);

    // No event was delivered for the dead session.
    assert!(recorder.data.lock().unwrap().is_empty());
    assert!(recorder.exits.lock().unwrap().is_empty());
    assert!(recorder.fs_changes.lock().unwrap().is_empty());
}

#[test]
fn p3_resize_after_close_is_a_no_op() {
    let recorder = Recorder::new();
    let (mut session, _pumps) = TerminalDelegate::new(
        "s3".to_string(),
        &test_profile(),
        "/tmp",
        &empty_preserved(),
        recorder,
    )
    .expect("PTY spawn failed");

    session.resize(40, 120).expect("resize while running failed");
    session.close();
    session.resize(50, 200).expect("resize after close errored");
    assert!(session.is_closed());
}

#[test]
fn p1_ids_stable_and_unique_in_registry() {
    let recorder = Recorder::new();
    let mut app = new_registry();
    app.new_terminal("a".to_string(), Some("/tmp".to_string()), recorder.clone())
        .expect("spawn a");
    app.new_terminal("b".to_string(), Some("/tmp".to_string()), recorder.clone())
        .expect("spawn b");

    assert!(app.has_terminal("a"));
    assert!(app.has_terminal("b"));
    assert_eq!(app.get_terminal_by_id("a").id(), "a");
    assert_eq!(app.get_terminal_by_id("b").id(), "b");

    // The identifier stays the same over the session's life.
    app.write("a", b"true\n").expect("write a");
    app.resize("a", 30, 100).expect("resize a");
    assert_eq!(app.get_terminal_by_id("a").id(), "a");

    app.remove_terminal_by_id("a");
    assert!(!app.has_terminal("a"));
    assert!(app.has_terminal("b"));
    app.remove_terminal_by_id("b");
}

#[test]
fn p10_id_reuse_after_removal() {
    let recorder = Recorder::new();
    let mut app = new_registry();

    app.new_terminal("dup".to_string(), Some("/tmp".to_string()), recorder.clone())
        .expect("first spawn");
    assert!(app.write("dup", b"true\n").expect("first write") > 0);
    app.remove_terminal_by_id("dup");
    assert!(!app.has_terminal("dup"));

    app.new_terminal("dup".to_string(), Some("/tmp".to_string()), recorder.clone())
        .expect("second spawn");
    assert!(app.has_terminal("dup"));
    assert!(!app.get_terminal_by_id("dup").is_closed());
    assert!(app.write("dup", b"true\n").expect("second write") > 0);
    app.remove_terminal_by_id("dup");
}

#[test]
fn p5_reapplied_options_are_a_no_op() {
    let recorder = Recorder::new();
    let (mut session, _pumps) = TerminalDelegate::new(
        "s5".to_string(),
        &test_profile(),
        "/tmp",
        &empty_preserved(),
        recorder,
    )
    .expect("PTY spawn failed");

    let opts = TermOptions { path: "/tmp".to_string(), watch_dirs: true };
    session.set_options(opts.clone()).expect("first set_options");
    assert!(session.is_watching());

    // The identical value again: reconciliation does not run a second time.
    session.set_options(opts).expect("second set_options");
    assert!(session.is_watching());

    // A different value with the watch off tears the watcher down.
    session
        .set_options(TermOptions { path: "/tmp".to_string(), watch_dirs: false })
        .expect("third set_options");
    assert!(!session.is_watching());

    session.close();
    assert!(!session.is_watching());
}

#[test]
fn statistics_of_live_shell_never_fail() {
    let recorder = Recorder::new();
    let (session, _pumps) = TerminalDelegate::new(
        "s6".to_string(),
        &test_profile(),
        "/tmp",
        &empty_preserved(),
        recorder,
    )
    .expect("PTY spawn failed");

    // Whatever the platform reported as the child process id, beginning a
    // sampling walk is total; with no id it is born finished.
    let sampler = session.begin_statistics();
    if session.process_id().is_none() {
        assert!(sampler.is_done());
    }
    let mut s = session;
    s.close();
}

#[test]
fn recreate_live_id_replaces_the_session() {
    let recorder = Recorder::new();
    let mut app = new_registry();
    app.new_terminal("live".to_string(), Some("/tmp".to_string()), recorder.clone())
        .expect("first spawn");
    app.new_terminal("live".to_string(), Some("/tmp".to_string()), recorder.clone())
        .expect("second spawn");
    assert!(app.has_terminal("live"));
    assert!(!app.get_terminal_by_id("live").is_closed());
    assert!(app.write("live", b"true\n").expect("write") > 0);
    app.remove_terminal_by_id("live");
    assert!(!app.has_terminal("live"));
}

#[test]
fn failed_watch_leaves_the_session_unchanged() {
    let recorder = Recorder::new();
    let (mut session, _pumps) = TerminalDelegate::new(
        "s7".to_string(),
        &test_profile(),
        "/tmp",
        &empty_preserved(),
        recorder,
    )
    .expect("PTY spawn failed");

    let bad = TermOptions { path: "/no-such-dir-for-terminal-one".to_string(), watch_dirs: true };
    let err = session.set_options(bad.clone()).unwrap_err();
    assert!(matches!(err, TermError::Notify(_)));
    assert!(!session.is_watching());

    // The failed options were never stored: the same value is no no-op, the
    // reconciliation runs again and fails again.
    assert!(session.set_options(bad).is_err());
    assert!(!session.is_watching());

    // A watchable path still applies afterwards.
    session
        .set_options(TermOptions { path: "/tmp".to_string(), watch_dirs: true })
        .expect("watchable path");
    assert!(session.is_watching());
    session.close();
}

#[test]
fn reader_step_decisions_are_exact() {
    let buf = vec![7u8, 8, 9, 0];
    let (step, data) = reader_step_of(Ok(2), &buf);
    assert_eq!(step, PumpStep::Delivered(2));
    assert_eq!(data, vec![7u8, 8]);

    let (step, data) = reader_step_of(Ok(0), &buf);
    assert_eq!(step, PumpStep::Ended);
    assert!(data.is_empty());

    let gone = std::io::Error::new(std::io::ErrorKind::Other, "gone");
    let (step, data) = reader_step_of(Err(gone), &buf);
    assert_eq!(step, PumpStep::Ended);
    assert!(data.is_empty());
}

#[test]
fn exit_decision_delivers_once_per_gate() {
    let mut gate = ExitGate::new();
    assert_eq!(exit_decision(Ok(ExitStatus::with_exit_code(3)), &mut gate), Some(3));
    assert_eq!(exit_decision(Ok(ExitStatus::with_exit_code(3)), &mut gate), None);

    // A failed wait delivers nothing and the permission stays available.
    let mut fresh = ExitGate::new();
    let wait_err = std::io::Error::new(std::io::ErrorKind::Other, "wait failed");
    assert_eq!(exit_decision(Err(wait_err), &mut fresh), None);
    assert_eq!(exit_decision(Ok(ExitStatus::with_exit_code(0)), &mut fresh), Some(0));
}
