use sshub::session::pty::{
    build_command, end_steps, fifo_name, plan_spawn, reader_step, stderr_step, EndStep, PtyEvent,
    ReadOutcome, StderrRead, StderrStep,
};

fn strings(args: &[&str]) -> Vec<String> {
    args.iter().map(|s| s.to_string()).collect()
}

fn pairs(p: &[(&str, &str)]) -> Vec<(String, String)> {
    p.iter().map(|(k, v)| (k.to_string(), v.to_string())).collect()
}

#[test]
fn a_child_without_a_command_is_none() {
    let refused = plan_spawn(&Vec::new(), &Vec::new(), Some("/tmp/f"));
    assert_eq!(refused.unwrap_err(), "empty argv");
}

#[test]
fn errors_go_through_a_shell() {
    let plan = plan_spawn(&strings(&["ssh", "-v", "h"]), &pairs(&[("A", "1")]), Some("/tmp/f")).unwrap();
    assert_eq!(plan.program, "/bin/sh");
    assert_eq!(
        plan.args,
        strings(&["-c", "exec \"$@\" 2>\"$SSHUB_STDERR_FIFO\"", "sshub", "ssh", "-v", "h"])
    );
    assert_eq!(
        plan.env,
        pairs(&[
            ("A", "1"),
            ("SSHUB_STDERR_FIFO", "/tmp/f"),
            ("TERM", "xterm-256color"),
            ("COLORTERM", "truecolor"),
        ])
    );
    let plain = plan_spawn(&strings(&["ssh", "h"]), &Vec::new(), None).unwrap();
    assert_eq!(plain.program, "ssh");
    assert_eq!(plain.args, strings(&["h"]));
    assert_eq!(plain.env.len(), 2);
}

#[test]
fn the_command_is_built() {
    let plan = plan_spawn(
        &strings(&["ssh", "h"]),
        &pairs(&[("TERM", "xterm-kitty"), ("KEY", "1"), ("KEY", "2")]),
        None,
    )
    .unwrap();
    let c = build_command(&plan, Some("/work"));
    let argv: Vec<String> = c.get_argv().iter().map(|a| a.to_string_lossy().to_string()).collect();
    assert_eq!(argv, strings(&["ssh", "h"]));
    assert_eq!(c.get_env("TERM").unwrap().to_str(), Some("xterm-256color"));
    assert_eq!(c.get_env("COLORTERM").unwrap().to_str(), Some("truecolor"));
    assert_eq!(c.get_env("KEY").unwrap().to_str(), Some("2"));
    assert_eq!(c.get_cwd().unwrap().to_str(), Some("/work"));
    assert!(build_command(&plan, None).get_cwd().is_none());
}

#[test]
fn no_variable_is_left_out() {
    let asked = pairs(&[("\u{c4}RGER", "a"), ("\u{e9}t\u{e9}", "b"), ("PLAIN", "c"), ("PLAIN", "d")]);
    let plan = plan_spawn(&strings(&["ssh"]), &asked, Some("/tmp/f")).unwrap();
    let c = build_command(&plan, None);
    assert_eq!(c.get_env("\u{c4}RGER").unwrap().to_str(), Some("a"));
    assert_eq!(c.get_env("\u{e9}t\u{e9}").unwrap().to_str(), Some("b"));
    assert_eq!(c.get_env("PLAIN").unwrap().to_str(), Some("d"));
    assert_eq!(c.get_env("SSHUB_STDERR_FIFO").unwrap().to_str(), Some("/tmp/f"));
}

#[test]
fn reads_become_events() {
    let (event, on) = reader_step(ReadOutcome::Data(vec![1, 2]), true);
    assert!(matches!(event, PtyEvent::Bytes(ref b) if *b == vec![1, 2]));
    assert!(on);
    let (_, on) = reader_step(ReadOutcome::Data(vec![1]), false);
    assert!(!on);
    let (event, on) = reader_step(ReadOutcome::End, true);
    assert!(matches!(event, PtyEvent::Exited(ref w) if w == "eof"));
    assert!(!on);
    let (event, _) = reader_step(ReadOutcome::Failed("EIO".to_string()), true);
    assert!(matches!(event, PtyEvent::Exited(ref w) if w == "read error: EIO"));

    assert!(matches!(stderr_step(StderrRead::Data(vec![7])), StderrStep::Send(PtyEvent::Stderr(ref b)) if *b == vec![7]));
    assert!(matches!(stderr_step(StderrRead::WouldBlock), StderrStep::Sleep(20)));
    assert!(matches!(stderr_step(StderrRead::Interrupted), StderrStep::Again));
    assert!(matches!(stderr_step(StderrRead::End), StderrStep::Stop));
    assert!(matches!(stderr_step(StderrRead::Failed), StderrStep::Stop));
}

#[test]
fn pipes_have_names_of_their_own() {
    assert_eq!(fifo_name(12, 3), "sshub-stderr-12-3.fifo");
    assert_ne!(fifo_name(1, 23), fifo_name(12, 3));
}

#[test]
fn a_child_is_always_reaped() {
    assert_eq!(
        end_steps(Some(9), true),
        vec![
            EndStep::HangUpGroup(9),
            EndStep::Sleep(50),
            EndStep::TerminateGroup(9),
            EndStep::Sleep(100),
            EndStep::Kill,
            EndStep::Wait,
        ]
    );
    assert_eq!(end_steps(None, true), vec![EndStep::Kill, EndStep::Wait]);
    assert_eq!(end_steps(Some(9), false), vec![EndStep::Kill, EndStep::Wait]);
}
