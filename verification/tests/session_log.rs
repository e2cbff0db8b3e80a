use std::path::PathBuf;

use sshub::config::paths::JoinedPath;
use sshub::session_log::script::{shell_join, shell_quote, wrap_script_command, ScriptPlatform};
use sshub::session_log::writer::{
    has_log_extension, log_files, prune_retention, AppendStep, DirEntry, LogFile, SessionLogWriter,
};
use sshub::session_log::{
    after_create_attempt, effective_enabled, host_log_dir_name, log_candidate, log_dirs,
    names_taken_message, sanitize_host_dir, unique_log_filename, CreateOutcome, CreateStep, SessionLoggingOverride,
    LOG_NAME_ATTEMPTS,
};

fn path(p: &JoinedPath) -> PathBuf {
    p.parts.iter().fold(PathBuf::from(&p.base), |whole, part| whole.join(part))
}

fn opened(
    host_name: &str,
    host_id: Option<i64>,
    file_name: &str,
    max_file_bytes: u64,
    retention_files: usize,
) -> SessionLogWriter {
    let base = JoinedPath::new("/data");
    SessionLogWriter::open(&base, host_name, host_id, file_name, max_file_bytes, retention_files)
}

#[test]
fn host_log_dir_name_distinct_for_colliding_sanitized_names() {
    assert_eq!(host_log_dir_name("web/prod", Some(1)), "web_prod-1");
    assert_eq!(host_log_dir_name("web_prod", Some(2)), "web_prod-2");
    assert_ne!(
        host_log_dir_name("web/prod", Some(1)),
        host_log_dir_name("web_prod", Some(2))
    );
    assert_eq!(host_log_dir_name("legacy", None), "legacy");
}

#[test]
fn sanitize_host_dir_replaces_unsafe_chars() {
    assert_eq!(sanitize_host_dir("web/prod"), "web_prod");
    assert_eq!(sanitize_host_dir("  my-host  "), "my-host");
    assert_eq!(sanitize_host_dir(".."), "_unknown");
}

#[test]
fn sanitizing_twice_changes_nothing() {
    for name in ["web/prod", "  a b  ", "..", "", ".", "x.y-z_1", "ünïcode"] {
        let once = sanitize_host_dir(name);
        assert_eq!(sanitize_host_dir(&once), once);
        assert!(!once.contains('/'));
        assert!(!once.is_empty());
    }
}

#[test]
fn effective_enabled_respects_override() {
    assert!(effective_enabled(true, SessionLoggingOverride::Inherit));
    assert!(!effective_enabled(false, SessionLoggingOverride::Inherit));
    assert!(effective_enabled(false, SessionLoggingOverride::On));
    assert!(!effective_enabled(true, SessionLoggingOverride::Off));
}

#[test]
fn override_db_roundtrip() {
    assert_eq!(
        SessionLoggingOverride::from_db(SessionLoggingOverride::On.to_db()),
        SessionLoggingOverride::On
    );
    assert_eq!(
        SessionLoggingOverride::from_db(SessionLoggingOverride::Inherit.to_db()),
        SessionLoggingOverride::Inherit
    );
}

#[test]
fn override_labels_and_cycle() {
    let start = SessionLoggingOverride::default();
    assert_eq!(start.label(), "inherit");
    assert_eq!(start.next().label(), "on");
    assert_eq!(start.next().next().label(), "off");
    assert_eq!(start.next().next().next(), start);
    assert_eq!(SessionLoggingOverride::from_db(Some(7)), SessionLoggingOverride::Inherit);
    assert_eq!(SessionLoggingOverride::Off.to_db(), Some(0));
}

#[test]
fn rotate_on_size_limit() {
    let mut w = opened("db", None, &unique_log_filename(7, 1, 0, 0), 8, 10);
    let first = path(w.path());
    assert_eq!(w.append(b"12345678".len()), AppendStep::Rotate);
    let serial: u32 = w.begin_rotation();
    w.finish_rotation(&unique_log_filename(7, 1, 0, serial));
    assert_eq!(w.append(b"X".len()), AppendStep::Keep);
    let second = path(w.path());
    assert_ne!(first, second);
    assert_eq!(second.parent(), first.parent());
    assert!(w.needs_flush_on_drop());
    w.close();
    assert!(!w.needs_flush_on_drop());
}

#[test]
fn writer_appends_and_prunes_old_logs() {
    let first = unique_log_filename(7, 1, 0, 0);
    let mut w = opened("web", None, &first, 1024, 2);
    assert_eq!(w.append(b"hello".len()), AppendStep::Keep);
    assert_eq!(path(w.path()), PathBuf::from("/data/logs/web").join(&first));
    w.close();

    let second = unique_log_filename(7, 1, 1, 0);
    let mut w2 = opened("web", None, &second, 1024, 2);
    assert_eq!(w2.append(b"world".len()), AppendStep::Keep);
    // What the directory holds once two stale files were put there.
    let entries: Vec<DirEntry> = [(first, 1), ("old1.log".to_string(), 2), ("old2.log".to_string(), 2), (second, 3)]
        .into_iter()
        .map(|(name, modified)| DirEntry {
            name,
            modified: Some(modified),
        })
        .collect();
    let logs = log_files(&entries);
    assert_eq!(logs.len(), 4);
    let removed = prune_retention(&logs, w2.retention_files);
    w2.close();
    let count = logs.len() - removed.len();
    assert!(count <= 2, "retention should cap at 2 files");
    assert!(count >= 1);
    assert_eq!(removed, vec![0, 1]);
}

#[test]
fn an_empty_write_never_rotates() {
    let mut w = opened("d", Some(3), "f", 0, 10);
    assert_eq!(w.append(0), AppendStep::Keep);
    assert_eq!(w.append(1), AppendStep::Rotate);
    assert_eq!(w.bytes_written, 1);
    assert_eq!(path(w.host_dir()), PathBuf::from("/data/logs/d-3"));
}

#[test]
fn concurrent_opens_get_distinct_files_same_second() {
    let w1 = opened("web", None, &unique_log_filename(9, 4, 0, 0), 1024, 10);
    let w2 = opened("web", None, &unique_log_filename(9, 4, 1, 0), 1024, 10);
    assert_ne!(path(w1.path()), path(w2.path()));
}

#[test]
fn managed_hosts_with_colliding_names_use_distinct_dirs() {
    let w1 = opened("web/prod", Some(1), "a", 1024, 10);
    let w2 = opened("web_prod", Some(2), "a", 1024, 10);
    assert_ne!(path(w1.host_dir()), path(w2.host_dir()));
}

#[test]
fn a_host_has_a_directory_among_the_logs() {
    let (logs, host) = log_dirs(&JoinedPath::new("/data"), "web/prod", Some(1));
    assert_eq!(path(&logs), PathBuf::from("/data/logs"));
    assert_eq!(path(&host), PathBuf::from("/data/logs/web_prod-1"));
}

#[test]
fn log_names_and_attempts() {
    let base = unique_log_filename(1700000000, 42, 3, 0);
    assert!(base.ends_with(".log"));
    let again = unique_log_filename(1700000000, 42, 3, 1);
    assert_ne!(base, again);
    assert_eq!(log_candidate(&base, 0), base);
    assert_ne!(log_candidate(&base, 1), log_candidate(&base, 2));
    assert_ne!(log_candidate(&base, 1), base);
    assert_eq!(after_create_attempt(0, CreateOutcome::Created), CreateStep::Use);
    assert_eq!(after_create_attempt(0, CreateOutcome::Failed), CreateStep::Fail);
    assert_eq!(after_create_attempt(0, CreateOutcome::AlreadyExists), CreateStep::Retry(1));
    assert_eq!(
        after_create_attempt(LOG_NAME_ATTEMPTS - 1, CreateOutcome::AlreadyExists),
        CreateStep::GiveUp
    );
    assert_eq!(
        names_taken_message("/l/web"),
        "could not allocate unique session log filename in /l/web"
    );
}

fn log(name: &str, modified: i128) -> LogFile {
    LogFile {
        name: name.to_string(),
        modified,
        place: 0,
    }
}

#[test]
fn retention_removes_the_oldest() {
    let logs = vec![log("c.log", 30), log("a.log", 10), log("b.log", 20), log("d.log", 40)];
    assert_eq!(prune_retention(&logs, 2), vec![1, 2]);
    assert_eq!(prune_retention(&logs, 4), Vec::<usize>::new());
    assert_eq!(prune_retention(&logs, 9), Vec::<usize>::new());
    // No limit is set by a retention of zero.
    assert_eq!(prune_retention(&logs, 0), Vec::<usize>::new());
}

#[test]
fn retention_counts_readable_logs_only() {
    let entries = vec![
        DirEntry {
            name: "b.txt".to_string(),
            modified: Some(2),
        },
        DirEntry {
            name: "a.log".to_string(),
            modified: Some(1),
        },
        DirEntry {
            name: "c.log".to_string(),
            modified: None,
        },
        DirEntry {
            name: ".log".to_string(),
            modified: Some(3),
        },
    ];
    let logs = log_files(&entries);
    assert_eq!(logs.len(), 1);
    assert_eq!(logs[0].name, "a.log");
    assert_eq!(logs[0].place, 1);
    assert!(has_log_extension("x.log"));
    assert!(!has_log_extension("x.log.gz"));
}

#[test]
fn shell_words_are_quoted() {
    assert_eq!(shell_quote("plain"), "plain");
    assert_eq!(shell_quote("two words"), "'two words'");
    assert_eq!(shell_quote("it's"), "'it'\\''s'");
    assert_eq!(shell_quote(""), "''");
    let argv = vec!["ssh".to_string(), "a b".to_string()];
    assert_eq!(shell_join(&argv), "ssh 'a b'");
}

#[test]
fn script_wraps_the_command() {
    let argv = vec!["ssh".to_string(), "h".to_string()];
    assert_eq!(
        wrap_script_command("/l/x.log", &argv, true, ScriptPlatform::Linux),
        Some(vec![
            "script".to_string(),
            "-q".to_string(),
            "-a".to_string(),
            "/l/x.log".to_string(),
            "-c".to_string(),
            "ssh h".to_string(),
        ])
    );
    assert_eq!(
        wrap_script_command("/l/x.log", &argv, true, ScriptPlatform::MacOs),
        Some(vec![
            "script".to_string(),
            "-q".to_string(),
            "/l/x.log".to_string(),
            "ssh".to_string(),
            "h".to_string(),
        ])
    );
    assert_eq!(wrap_script_command("/l", &argv, false, ScriptPlatform::Linux), None);
    assert_eq!(wrap_script_command("/l", &argv, true, ScriptPlatform::Other), None);
    assert_eq!(wrap_script_command("/l", &Vec::new(), true, ScriptPlatform::Linux), None);
}

#[test]
fn chunks_are_never_split_or_lost() {
    let chunks: [&[u8]; 6] = [b"12345", b"", b"678901234", b"x", b"yz", b"0123456789"];
    let mut w = opened("d", None, "0", 8, 0);
    let mut files: Vec<Vec<u8>> = vec![Vec::new()];
    for chunk in chunks {
        files.last_mut().unwrap().extend_from_slice(chunk);
        if w.append(chunk.len()) == AppendStep::Rotate {
            let serial = w.begin_rotation();
            w.finish_rotation(&serial.to_string());
            files.push(Vec::new());
        }
    }
    assert_eq!(files.concat(), chunks.concat());
    assert_eq!(files, [&b"12345678901234"[..], &b"xyz0123456789"[..], &b""[..]]);
    assert_eq!(path(w.path()), PathBuf::from("/data/logs/d/2"));
    assert_eq!(w.bytes_written, 0);
}

#[test]
fn two_opens_never_share_a_name() {
    let mut names = Vec::new();
    for open_id in [0u32, 1, 10] {
        for serial in [0u32, 1] {
            let base = unique_log_filename(9, 4, open_id, serial);
            for attempt in [0u32, 1, 10] {
                let name = log_candidate(&base, attempt);
                names.push((open_id, name));
            }
        }
    }
    for (open_a, a) in &names {
        for (open_b, b) in &names {
            assert!(open_a == open_b || a != b, "{a}");
        }
    }
}
