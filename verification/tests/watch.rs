//! The filesystem watcher end to end: rapid mutations inside one debounce
//! window surface as one coalesced filesystem-changed event carrying every
//! changed path.

use std::io::Write;
use std::sync::Arc;
use std::sync::Mutex;
use std::time::Duration;
use std::time::Instant;
use terminal_one::envs::build_preserved_envs;
use terminal_one::events::SessionEventHandler;
use terminal_one::messages::TermOptions;
use terminal_one::session::SpawnProfile;
use terminal_one::session::TerminalDelegate;

/// Records filesystem-changed events only.
#[derive(Clone)]
struct FsRecorder {
    fs_changes: Arc<Mutex<Vec<(String, Vec<String>)>>>,
}

impl FsRecorder {
    fn new() -> FsRecorder {
        FsRecorder { fs_changes: Arc::new(Mutex::new(Vec::new())) }
    }

    fn count(&self) -> usize {
        self.fs_changes.lock().unwrap().len()
    }
}

impl SessionEventHandler for FsRecorder {
    fn on_data(&self, _id: &str, _data: &[u8]) {}

    fn on_exit(&self, _id: &str, _exit_code: u32) {}

    fn on_fs_changed(&self, id: &str, paths: Vec<String>) {
        self.fs_changes.lock().unwrap().push((id.to_string(), paths));
    }
}

fn pause(d: Duration) {
    let t0 = Instant::now();
    while t0.elapsed() < d {
        std::hint::spin_loop();
    }
}

#[test]
fn p6_rapid_changes_coalesce_into_one_event() {
    let recorder = FsRecorder::new();
    let profile = SpawnProfile {
        program: "/bin/bash".to_string(),
        version: "0.1.0".to_string(),
        shell_dir: "/tmp".to_string(),
        user_shell_dir: "/tmp".to_string(),
    };
    let values: Vec<Option<String>> = vec![None, None, None, None, None, None, None, None];
    let preserved = build_preserved_envs(&values);
    let (mut session, _pumps) = TerminalDelegate::new(
        "w1".to_string(),
        &profile,
        "/tmp",
        &preserved,
        recorder.clone(),
    )
    .expect("PTY spawn failed");

    let dir = tempfile::tempdir().expect("temp dir");
    let dir_path = dir.path().to_str().expect("utf-8 path").to_string();
    session
        .set_options(TermOptions { path: dir_path, watch_dirs: true })
        .expect("watcher setup failed");
    assert!(session.is_watching());

    // Let the watch arm before mutating.
    pause(Duration::from_millis(300));

    // Five rapid mutations across two files, well inside 200 ms.
    let mut f1 = tempfile::Builder::new().prefix("one").tempfile_in(dir.path()).expect("file 1");
    let mut f2 = tempfile::Builder::new().prefix("two").tempfile_in(dir.path()).expect("file 2");
    let p1 = f1.path().to_str().expect("utf-8 path").to_string();
    let p2 = f2.path().to_str().expect("utf-8 path").to_string();
    for round in 0..2 {
        f1.write_all(b"tick").expect("write 1");
        f1.flush().expect("flush 1");
        f2.write_all(b"tock").expect("write 2");
        f2.flush().expect("flush 2");
        if round == 0 {
            f1.write_all(b"tick").expect("write 3");
            f1.flush().expect("flush 3");
        }
        pause(Duration::from_millis(30));
    }

    // Wait for the debounce window to expire and the single event to land.
    let deadline = Instant::now() + Duration::from_secs(10);
    while recorder.count() == 0 && Instant::now() < deadline {
        pause(Duration::from_millis(100));
    }
    // Give a straggler window every chance to (wrongly) add a second event.
    pause(Duration::from_millis(2500));

    let events = recorder.fs_changes.lock().unwrap().clone();
    assert_eq!(events.len(), 1, "expected one coalesced event, got {:?}", events);
    let (id, paths) = &events[0];
    assert_eq!(id, "w1");
    assert!(paths.iter().any(|p| p == &p1), "missing {:?} in {:?}", p1, paths);
    assert!(paths.iter().any(|p| p == &p2), "missing {:?} in {:?}", p2, paths);

    session.close();
    assert!(!session.is_watching());
}
