use sshub::app::connect::{
    ConnectAction, ConnectEvent, ConnectStage, Connection, OsDetected,
};
use sshub::app::session_spawn::{SpawnAction, SpawnEvent};
use sshub::app::{is_session_mode, App, AppMode, LogLevel, SshLogEntry};
use sshub::model::{HostEntry, HostSource, ManagedHost, SessionTransport};
use sshub::session_log::SessionLoggingOverride;
use std::collections::HashSet;

fn host(id: i64, name: &str) -> HostEntry {
    HostEntry::Managed(ManagedHost {
        id,
        name: name.to_string(),
        source: HostSource::Launcher,
        username: Some("bob".to_string()),
        identity: None,
        proxy_jump: None,
        os_icon: None,
        last_connected: None,
        session_logging: SessionLoggingOverride::Inherit,
        transport: SessionTransport::Ssh,
    })
}

fn line(host_name: &str, line: &str) -> SshLogEntry {
    SshLogEntry {
        host_name: host_name.to_string(),
        line: line.to_string(),
        level: LogLevel::Info,
        timestamp: 1,
    }
}

fn app() -> App {
    App {
        hosts: vec![host(1, "web"), host(2, "db")],
        filtered_indices: vec![1, 0],
        selected: 0,
        ssh_log: vec![line("web", "old"), line("db", "kept"), line("web", "older")],
        host_notice: None,
        sessions: Vec::new(),
        active_session: None,
        mode: AppMode::Normal,
        session_entering: false,
        motion_enabled: true,
        logging_enabled: true,
        terminal_height: 2,
        terminal_width: 10,
        os_detector: true,
        os_detect_inflight: HashSet::new(),
    }
}

fn argv() -> Vec<String> {
    vec!["ssh".to_string(), "web".to_string()]
}

fn step(
    a: &mut App,
    entry: &HostEntry,
    at: Connection,
    event: ConnectEvent,
) -> (Connection, ConnectAction) {
    a.connect_host_entry(entry, &argv(), at, event, 50)
}

#[test]
fn selection_picks_the_host() {
    let mut a = app();
    assert_eq!(a.connect_selected().unwrap().0, 1);
    a.selected = 2;
    assert!(a.connect_selected().is_none());
    assert!(a.connect_host_at(2).is_none());
    assert_eq!(a.connect_host_at(0).unwrap().1.stage, ConnectStage::Secret);
}

#[test]
fn a_connection_runs_to_its_end() {
    let mut a = app();
    let entry = host(1, "web");
    let (_, at) = a.connect_host_at(0).unwrap();
    let resolved = ConnectEvent::SecretResolved {
        note: "using the stored password".to_string(),
        present: true,
    };
    let (at, action) = step(&mut a, &entry, at, resolved);
    assert!(matches!(action, ConnectAction::CheckProgram));
    assert_eq!(a.ssh_log.len(), 2);
    assert_eq!(a.ssh_log[0].line, "kept");
    assert_eq!(a.ssh_log[1].level, LogLevel::Success);

    let (at, action) = step(&mut a, &entry, at, ConnectEvent::ProgramChecked { found: true });
    assert!(matches!(action, ConnectAction::Spawn { rows: 3, cols: 20 }));
    assert_eq!(a.ssh_log[2].line, "$ ssh web");

    let (at, action) = step(&mut a, &entry, at, ConnectEvent::Spawned);
    assert!(matches!(action, ConnectAction::OpenLog));
    let opened = ConnectEvent::LogOpened {
        dir: "/d/logs/web-1".to_string(),
    };
    let (at, action) = step(&mut a, &entry, at, opened);
    match action {
        ConnectAction::Note(event) => {
            assert_eq!(event.host_name, "web");
            assert_eq!(event.username, Some("bob".to_string()));
            assert_eq!(event.via, "direct");
            assert_eq!(event.detail, "session started");
            assert_eq!(event.log_dir, Some("/d/logs/web-1".to_string()));
        }
        other => panic!("{other:?}"),
    }
    assert_eq!(a.sessions.len(), 1);
    assert_eq!(a.active_session, Some(0));
    assert_eq!(a.mode, AppMode::Connecting);
    assert!(a.session_entering);

    let (at, action) = step(&mut a, &entry, at, ConnectEvent::Noted);
    assert!(matches!(action, ConnectAction::StoreTime { row: Some(1) }));
    let (at, action) = step(&mut a, &entry, at, ConnectEvent::Stored { timestamp: 60 });
    assert!(matches!(action, ConnectAction::Refresh));
    assert!(matches!(&a.hosts[0], HostEntry::Managed(m) if m.last_connected == Some(60)));
    let (at, action) = step(&mut a, &entry, at, ConnectEvent::Refreshed);
    assert!(matches!(action, ConnectAction::Detect { host_id: 1 }));
    let (at, action) = step(&mut a, &entry, at, ConnectEvent::DetectOrdered { accepted: true });
    assert!(matches!(action, ConnectAction::Finish));
    assert_eq!(at.stage, ConnectStage::Done);
    assert!(a.os_detect_inflight.contains(&1));
    assert_eq!(a.host_to_detect(&entry), None);
    let (_, action) = step(&mut a, &entry, at, ConnectEvent::Noted);
    assert!(matches!(action, ConnectAction::Unexpected));
}

#[test]
fn a_missing_program_gives_the_connection_up() {
    let mut a = app();
    let at = Connection {
        stage: ConnectStage::Program,
        shown_at: 0,
    };
    let (at, action) = step(&mut a, &host(1, "web"), at, ConnectEvent::ProgramChecked { found: false });
    assert!(matches!(action, ConnectAction::Finish));
    assert_eq!(at.stage, ConnectStage::Done);
    let text = "Command not found: 'ssh'. Check your PATH or install it.";
    assert_eq!(a.host_notice, Some(text.to_string()));
    assert_eq!(a.ssh_log.last().unwrap().line, text);
    assert!(a.sessions.is_empty());
}

#[test]
fn a_failed_start_is_noted() {
    let mut a = app();
    let at = Connection {
        stage: ConnectStage::Spawn,
        shown_at: 44,
    };
    let failed = ConnectEvent::SpawnFailed {
        detail: "no pty".to_string(),
    };
    let (at, action) = step(&mut a, &host(1, "web"), at, failed);
    assert_eq!(at.stage, ConnectStage::Done);
    assert!(matches!(action, ConnectAction::NoteFailure(ref e) if e.detail == "Session spawn failed: no pty"));
    assert_eq!(a.ssh_log.last().unwrap().timestamp, 44);
    assert_eq!(a.host_notice, Some("Session spawn failed: no pty".to_string()));
    assert_eq!(a.mode, AppMode::Normal);
}

#[test]
fn a_log_that_cannot_be_opened_does_not_stop_the_session() {
    let mut a = app();
    let at = Connection {
        stage: ConnectStage::Log,
        shown_at: 0,
    };
    let failed = ConnectEvent::LogFailed {
        detail: "disk full".to_string(),
    };
    let (_, action) = step(&mut a, &host(1, "web"), at, failed);
    assert!(matches!(action, ConnectAction::Note(ref e) if e.log_dir.is_none()));
    assert_eq!(a.host_notice, Some("Session logging unavailable: disk full".to_string()));
    assert_eq!(a.sessions.len(), 1);
}

#[test]
fn a_time_that_cannot_be_stored_ends_the_connection() {
    let mut a = app();
    let at = Connection {
        stage: ConnectStage::Store,
        shown_at: 0,
    };
    let (at, action) = step(&mut a, &host(1, "web"), at, ConnectEvent::StoreFailed);
    assert!(matches!(action, ConnectAction::Finish));
    assert_eq!(at.stage, ConnectStage::Done);
}

#[test]
fn detected_systems_are_taken_in() {
    let mut a = app();
    a.os_detect_inflight.insert(1);
    let found = OsDetected {
        host_id: 1,
        os: "debian".to_string(),
    };
    assert_eq!(found.update().os_icon, Some(Some("debian".to_string())));
    assert_eq!(a.apply_os_detect(&found, Err("locked".to_string())), Err("locked".to_string()));
    assert!(a.os_detect_inflight.contains(&1));
    assert_eq!(a.apply_os_detect(&found, Ok(())), Ok(()));
    assert!(a.os_detect_inflight.is_empty());
}

#[test]
fn sessions_without_a_host() {
    let mut a = app();
    a.terminal_height = 40;
    a.terminal_width = 120;
    let shell = vec!["bash".to_string()];
    let action = a.spawn_embedded_session(&shell, "local", "local", SpawnEvent::ProgramChecked { found: true }, 5);
    assert!(matches!(action, SpawnAction::Spawn { rows: 40, cols: 120 }));
    let action = a.spawn_embedded_session(&shell, "local", "local", SpawnEvent::Spawned, 5);
    assert!(matches!(action, SpawnAction::Note(ref e) if e.launched && e.username.is_none() && e.via == "direct"));
    assert!(!a.session_entering);
    assert_eq!(a.sessions[0].display_name, "local");
    let failed = SpawnEvent::SpawnFailed {
        detail: "x".to_string(),
    };
    let action = a.spawn_embedded_session(&shell, "local", "local", failed, 5);
    assert!(matches!(action, SpawnAction::Note(ref e) if !e.launched));
    let action = a.spawn_embedded_session(&shell, "local", "local", SpawnEvent::ProgramChecked { found: false }, 5);
    assert!(matches!(action, SpawnAction::Finish));
    assert!(is_session_mode(a.mode));
    assert!(!is_session_mode(AppMode::Help));
}
