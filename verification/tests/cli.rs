use sshub::cli::add::{name_taken_message, AddError, HostAddSpec};
use sshub::cli::commands::{
    after_duplicate, check_rename, names_at, parse_delete, parse_duplicate, renamed_legacy,
    resolve_group_ids, run_host, take_list_filters, take_verbose, usage_status, DeleteArgs,
    DeleteHostOutcome, HostCommand, HostUsage, RenameArgs, RenameError,
};
use sshub::cli::connect::{
    begin_connect, cmd_connect, connect_event, exit_status, plan_logged_command, plan_transcript,
    CliConnect, CliConnectAction, CliConnectEvent, LogAllocation, Transcript,
};
use sshub::cli::edit::{
    edit_metadata, identity_update, plan_row_edit, plan_row_metadata_edit,
    route_edit, start_edit, EditRefusal, EditRoute, EditStart, PasswordAction,
};
use sshub::cli::edit_run::{
    begin_edit, cmd_edit, other_name_message, EditAction, EditEvent, EditRun,
};
use sshub::cli::host::{strip_line_end, EditError, HostEditPatch, NewPassword};
use sshub::cli::parse::{
    optional_field, parse_session_logging, parse_tags, parse_transport, take_all, take_flag,
    take_opt,
};
use sshub::cli::runs::{
    begin_add, cmd_add, cmd_duplicate, cmd_rename, password_warning, AddAction, AddEvent, AddRun,
    DuplicateAction, DuplicateEvent, DuplicateRun, RenameAction, RenameEvent, RenameRun,
};
use sshub::model::{
    record_connected, HostEntry, HostMetadata, HostSource, Identity, ManagedHost,
    SessionTransport, SshHost,
};
use sshub::session_log::script::ScriptPlatform;
use sshub::session_log::SessionLoggingOverride;

fn strings(args: &[&str]) -> Vec<String> {
    args.iter().map(|s| s.to_string()).collect()
}

fn patch(args: &[&str]) -> HostEditPatch {
    HostEditPatch::parse(&strings(args)).unwrap()
}

fn managed(id: i64, name: &str, source: HostSource) -> ManagedHost {
    ManagedHost {
        id,
        name: name.to_string(),
        source,
        username: None,
        identity: None,
        proxy_jump: None,
        os_icon: None,
        last_connected: None,
        session_logging: SessionLoggingOverride::Inherit,
        transport: SessionTransport::Ssh,
    }
}

fn ssh(name: &str) -> SshHost {
    SshHost {
        name: name.to_string(),
        user: Some("ubuntu".to_string()),
        proxy_jump: None,
    }
}

fn meta(name: &str) -> HostMetadata {
    HostMetadata {
        host_name: name.to_string(),
        tags: strings(&["prod"]),
        description: Some("old".to_string()),
        environment: None,
        favorite: true,
        last_connected: Some(3),
        session_logging: SessionLoggingOverride::Off,
        transport: SessionTransport::Mosh,
    }
}

fn legacy(name: &str) -> HostEntry {
    HostEntry::Legacy {
        host: ssh(name),
        meta: meta(name),
    }
}

#[test]
fn username_only_edit_routes_through_full_path() {
    let p = patch(&["--name", "h", "--set-username", "bob"]);
    assert!(!p.metadata_only());
    assert!(p.needs_materialize());
}

#[test]
fn os_icon_only_edit_routes_through_full_path() {
    let p = patch(&["--name", "h", "--set-os-icon", "linux"]);
    assert!(!p.metadata_only());
    assert!(p.needs_materialize());
}

#[test]
fn clear_username_only_edit_routes_through_full_path() {
    let p = patch(&["--name", "h", "--clear-username"]);
    assert!(!p.metadata_only());
    assert!(p.needs_materialize());
}

#[test]
fn tags_only_edit_stays_metadata_only() {
    let p = patch(&["--name", "h", "--set-tags", "a,b"]);
    assert!(p.metadata_only());
}

#[test]
fn password_only_edit_takes_neither_way() {
    let p = patch(&["--name", "h", "--clear-password"]);
    assert!(!p.metadata_only());
    assert!(!p.needs_materialize());
    assert_eq!(route_edit(&p, &legacy("h")), Err(EditRefusal::NoRow));
    let m = HostEntry::Managed(managed(4, "h", HostSource::SshConfig));
    assert_eq!(route_edit(&p, &m), Ok(EditRoute::Row(4)));
}

#[test]
fn options_are_taken_out() {
    let mut args = strings(&["--a", "1", "x", "--a", "2", "--f", "--a"]);
    assert!(take_flag(&mut args, "--f"));
    assert!(!take_flag(&mut args, "--f"));
    assert_eq!(take_opt(&mut args, "--a"), Some("1".to_string()));
    assert_eq!(args, strings(&["x", "--a", "2", "--a"]));
    assert_eq!(take_all(&mut args, "--a"), strings(&["2"]));
    assert_eq!(take_opt(&mut args, "--a"), None);
    assert_eq!(args, strings(&["x", "--a"]));
    let mut args = strings(&["--verbose", "-v", "n"]);
    assert!(take_verbose(&mut args));
    assert_eq!(args, strings(&["-v", "n"]));
    assert!(take_verbose(&mut args));
    assert!(!take_verbose(&mut args));
}

#[test]
fn fields_and_words_are_read() {
    assert_eq!(optional_field("  a b "), Some("a b".to_string()));
    assert_eq!(optional_field("   "), None);
    assert_eq!(parse_tags(" a , ,b,"), strings(&["a", "b"]));
    assert_eq!(parse_tags(""), Vec::<String>::new());
    assert_eq!(parse_transport("mosh"), Some(SessionTransport::Mosh));
    assert_eq!(parse_transport("telnet"), None);
    assert_eq!(parse_session_logging("off"), Some(SessionLoggingOverride::Off));
    assert_eq!(parse_session_logging("maybe"), None);
}

#[test]
fn edit_refuses_bad_arguments() {
    let err = |args: &[&str]| HostEditPatch::parse(&strings(args)).unwrap_err();
    assert_eq!(err(&["--set-port", "x"]), EditError::MissingName);
    assert_eq!(err(&["--name", "h", "--set-port", "70000"]), EditError::InvalidPort);
    assert_eq!(err(&["--name", "h", "--set-session-log", "x"]), EditError::InvalidSessionLog);
    assert_eq!(err(&["--name", "h", "--set-transport", "x"]), EditError::InvalidTransport);
    assert_eq!(err(&["--name", "h"]), EditError::NothingToEdit);
    assert_eq!(EditError::NothingToEdit.message(), "edit requires at least one --set-* flag");
    assert_eq!(EditError::MissingName.message(), "edit requires --name");
}

#[test]
fn edit_reads_every_option() {
    let p = patch(&[
        "--name", "h", "--set-label", " L ", "--set-name", "n", "--set-address", "a",
        "--set-port", "2222", "--set-username", "", "--set-tags", "x,y", "--set-notes", "note",
        "--clear-notes", "--set-environment", "e", "--clear-environment", "--set-proxy-jump", "j",
        "--clear-proxy-jump", "--set-remote-command", "c", "--clear-remote-command",
        "--set-forward-agent", "--no-forward-agent", "--set-os-icon", "o", "--clear-os-icon",
        "--set-session-log", "on", "--set-transport", "mosh", "--favorite", "--set-identity", "i",
        "--clear-identity", "--set-group", "g1", "--set-group", "g2", "--set-password-stdin",
        "--clear-password",
    ]);
    assert_eq!(p.set_label, Some(Some("L".to_string())));
    assert_eq!(p.set_username, Some(None));
    assert_eq!(p.set_port, Some(2222));
    assert_eq!(p.set_tags, Some(strings(&["x", "y"])));
    assert_eq!(p.set_forward_agent, Some(false));
    assert_eq!(p.favorite, Some(true));
    assert_eq!(p.set_groups, Some(strings(&["g1", "g2"])));
    assert_eq!(p.set_has_password, Some(true));
    assert!(matches!(p.password, Some(NewPassword::Stdin)));
    assert!(p.changes_connection_fields());
    assert!(p.has_any_patch());

    let mut p = p;
    p.provide_password("secret\r\n\n");
    let plan = plan_row_edit(p, &managed(9, "h", HostSource::Launcher), Some(5), Some("n-2".to_string()));
    assert_eq!(plan.id, 9);
    assert_eq!(plan.printed, "n-2");
    assert_eq!(plan.update.name, Some("n-2".to_string()));
    assert_eq!(plan.update.notes, Some(None));
    assert_eq!(plan.update.environment, Some(None));
    assert_eq!(plan.update.proxy_jump, Some(None));
    assert_eq!(plan.update.remote_command, Some(None));
    assert_eq!(plan.update.os_icon, Some(None));
    assert_eq!(plan.update.identity_id, Some(None));
    assert_eq!(plan.update.has_password, Some(true));
    assert_eq!(plan.groups, Some(strings(&["g1", "g2"])));
    assert!(matches!(plan.password, PasswordAction::Store(ref s) if s == "secret"));
}

#[test]
fn edit_starts_and_routes() {
    let connection = patch(&["--name", "h", "--set-port", "22"]);
    assert_eq!(start_edit(&connection, &legacy("h")), EditStart::Materialize);
    let launcher = HostEntry::Managed(managed(1, "h", HostSource::Launcher));
    assert_eq!(start_edit(&connection, &launcher), EditStart::Proceed);
    assert_eq!(route_edit(&connection, &launcher), Ok(EditRoute::Row(1)));
    let config = HostEntry::Managed(managed(2, "h", HostSource::SshConfig));
    assert_eq!(route_edit(&connection, &config), Err(EditRefusal::ReadOnly));
    let user = patch(&["--name", "h", "--set-username", "bob"]);
    assert_eq!(route_edit(&user, &config), Ok(EditRoute::Row(2)));
    let tags = patch(&["--name", "h", "--set-tags", "a"]);
    assert_eq!(route_edit(&tags, &config), Ok(EditRoute::RowMetadata(2)));
    assert_eq!(route_edit(&tags, &legacy("h")), Ok(EditRoute::Metadata));
    assert_eq!(
        EditRefusal::NoRow.message("h"),
        "host 'h' has no managed row for connection edits"
    );
    assert_eq!(EditRefusal::NotMaterialized.message("h"), "host 'h' could not be materialized");
}

#[test]
fn metadata_edits_store_the_same_either_way() {
    let args = ["--name", "h", "--set-tags", "a", "--clear-notes", "--no-favorite"];
    let row = plan_row_edit(patch(&args), &managed(1, "h", HostSource::Launcher), None, None);
    let meta = plan_row_metadata_edit(patch(&args), &managed(1, "h", HostSource::Launcher));
    assert_eq!(format!("{:?}", row.update), format!("{:?}", meta.update));
    assert_eq!(meta.printed, "h");
    assert!(matches!(row.password, PasswordAction::Keep));
    assert_eq!(identity_update(3).identity_id, Some(Some(3)));
}

#[test]
fn metadata_of_a_host_without_a_row() {
    let p = patch(&["--name", "h", "--set-notes", "", "--set-transport", "ssh"]);
    let after = edit_metadata(p, &ssh("h"), meta("h"));
    // Setting the notes to nothing leaves them; clearing them empties them.
    assert_eq!(after.description, Some("old".to_string()));
    assert_eq!(after.transport, SessionTransport::Ssh);
    assert_eq!(after.tags, strings(&["prod"]));
    assert!(after.favorite);
    assert_eq!(after.last_connected, Some(3));
    let p = patch(&["--name", "h", "--clear-notes", "--set-environment", "e"]);
    let after = edit_metadata(p, &ssh("h"), meta("h"));
    assert_eq!(after.description, None);
    assert_eq!(after.environment, Some("e".to_string()));
}

#[test]
fn add_reads_its_arguments() {
    let s = HostAddSpec::parse(&strings(&[
        "--name", "n", "--address", "a", "--port", "+2200", "--group", "g", "--tags", "x, y",
        "--transport", "carrier-pigeon", "--session-log", "off", "--forward-agent",
        "--password-stdin", "--favorite", "--label", " ",
    ]))
    .unwrap();
    assert_eq!(s.port, 2200);
    assert_eq!(s.transport, SessionTransport::Ssh);
    assert_eq!(s.session_logging, SessionLoggingOverride::Off);
    assert!(s.forward_agent);
    assert!(s.favorite);
    assert_eq!(s.label, None);
    let mut s = s;
    s.provide_password("pw\n");
    assert!(matches!(s.password, Some(NewPassword::Text(ref t)) if t == "pw"));
    let (host, password) = s.new_host("n-2".to_string(), Some(7), &vec![3, 4]);
    assert!(matches!(password, Some(NewPassword::Text(ref t)) if t == "pw"));
    assert_eq!(host.name, "n-2");
    assert_eq!(host.group_id, Some(3));
    assert_eq!(host.identity_id, Some(7));
    assert!(host.has_password);
    assert_eq!(host.source, HostSource::Launcher);

    let err = |args: &[&str]| HostAddSpec::parse(&strings(args)).unwrap_err();
    assert_eq!(err(&["--address", "a"]), AddError::MissingName);
    assert_eq!(err(&["--name", "n"]), AddError::MissingAddress);
    assert_eq!(err(&["--name", "n", "--address", "a", "--port", "-1"]), AddError::InvalidPort);
    assert_eq!(AddError::InvalidPort.message(), "invalid --port");
    let d = HostAddSpec::parse(&strings(&["--name", "n", "--address", "a", "--no-forward-agent", "--forward-agent"])).unwrap();
    assert_eq!(d.port, 22);
    assert!(!d.forward_agent);
    assert_eq!(name_taken_message("n", "n"), None);
    assert_eq!(name_taken_message("n", "n-2"), Some("name 'n' taken, using 'n-2'".to_string()));
}

#[test]
fn commands_are_told_apart() {
    let (c, rest) = run_host(&strings(&["edit", "--name", "h"])).unwrap();
    assert_eq!(c, HostCommand::Edit);
    assert_eq!(rest, strings(&["--name", "h"]));
    let missing = run_host(&[]).unwrap_err();
    assert_eq!(missing.lines(), strings(&["missing host subcommand"]));
    let unknown = run_host(&strings(&["frob"])).unwrap_err();
    assert!(matches!(unknown, HostUsage::Unknown(_)));
    assert_eq!(unknown.lines()[0], "unknown host subcommand 'frob'");
    assert_eq!(usage_status(), 2);
}

#[test]
fn rename_delete_and_duplicate() {
    let r = RenameArgs::parse(&strings(&["--strict", "--name", "a", "--new-name", "b"])).unwrap();
    assert!(check_rename(&managed(1, "a", HostSource::Launcher)).is_ok());
    let refused = check_rename(&managed(1, "a", HostSource::SshConfig)).unwrap_err();
    assert_eq!(refused.message(), "only launcher hosts can be renamed");
    let host = managed(1, "a", HostSource::Launcher);
    let (run, action) = cmd_rename(RenameRun::Finding { asked: r }, RenameEvent::Found(host));
    assert!(matches!(action, RenameAction::CheckName(ref n) if n == "b"));
    let (run, action) = cmd_rename(run, RenameEvent::Checked { taken: true });
    assert!(matches!(run, RenameRun::Done));
    assert!(matches!(action, RenameAction::Refuse(ref e) if e.message() == "host name 'b' already exists"));
    let r = RenameArgs::parse(&strings(&["--name", "a", "--new-name", "b"])).unwrap();
    let host = managed(1, "a", HostSource::Launcher);
    let (run, action) = cmd_rename(RenameRun::Finding { asked: r }, RenameEvent::Found(host));
    assert!(matches!(action, RenameAction::FindFreeName { ref asked, except: 1 } if asked == "b"));
    let (run, action) = cmd_rename(run, RenameEvent::FreeName("b-2".to_string()));
    assert!(matches!(action, RenameAction::Update { id: 1, ref update } if update.name == Some("b-2".to_string())));
    let (run, action) = cmd_rename(run, RenameEvent::Finished);
    assert!(matches!(action, RenameAction::Reload));
    let (_, action) = cmd_rename(run, RenameEvent::Finished);
    assert!(matches!(action, RenameAction::Print(ref n) if n == "b-2"));
    assert!(matches!(
        RenameArgs::parse(&strings(&["--new-name", "b"])),
        Err(RenameError::MissingName)
    ));
    assert!(matches!(
        RenameArgs::parse(&strings(&["--name", "b"])),
        Err(RenameError::MissingNewName)
    ));

    assert!(matches!(parse_delete(&strings(&["--name", "a"])), DeleteArgs::Unconfirmed));
    assert!(matches!(parse_delete(&strings(&["--yes"])), DeleteArgs::MissingName));
    assert!(matches!(parse_delete(&strings(&["--name", "a", "--yes"])), DeleteArgs::Named(ref n) if n == "a"));
    let refused = |args: &[&str]| parse_delete(&strings(args)).refusal();
    assert_eq!(refused(&["--name", "a"]), Some((Some(1), "delete requires --yes")));
    assert_eq!(refused(&["--yes"]), Some((None, "delete requires --name")));
    assert_eq!(refused(&["--name", "a", "--yes"]), None);
    assert!(DeleteHostOutcome::Deleted.reloads());
    assert!(!DeleteHostOutcome::NotFound.reloads());
    assert!(!DeleteHostOutcome::NotLauncher.reloads());
    assert_eq!(DeleteHostOutcome::Deleted.report(), (0, None));
    assert_eq!(DeleteHostOutcome::NotFound.report(), (1, Some("host not found")));
    assert_eq!(DeleteHostOutcome::NotLauncher.report().0, 2);

    assert_eq!(parse_duplicate(&strings(&[])), Err("duplicate requires --name"));
    assert_eq!(
        parse_duplicate(&strings(&["--name", "a", "--new-name", "b"])),
        Ok(("a".to_string(), Some("b".to_string())))
    );
    let (update, name) = after_duplicate(Some("b".to_string()), "a-copy".to_string());
    assert_eq!(name, "b");
    assert_eq!(update.unwrap().name, Some("b".to_string()));
    let (update, name) = after_duplicate(None, "a-copy".to_string());
    assert!(update.is_none());
    assert_eq!(name, "a-copy");
    let (host, meta) = renamed_legacy(ssh("a"), meta("a"), Some("b".to_string()));
    assert_eq!(host.name, "b");
    assert_eq!(meta.host_name, "b");
}

#[test]
fn groups_and_names_are_looked_up() {
    assert_eq!(resolve_group_ids(&vec![Ok(1), Ok(2)]), Ok(vec![1, 2]));
    assert_eq!(
        resolve_group_ids(&vec![Ok(1), Err("no g".to_string()), Err("no h".to_string())]),
        Err("no g".to_string())
    );
    let hosts = vec![legacy("a"), legacy("b")];
    assert_eq!(names_at(&hosts, &vec![1, 0, 1]), strings(&["b", "a", "b"]));
}

#[test]
fn line_ends_are_stripped() {
    assert_eq!(strip_line_end("pw\r\n"), "pw");
    assert_eq!(strip_line_end("p\nw "), "p\nw ");
    assert_eq!(strip_line_end("\n\n"), "");
}

#[test]
fn connect_plans_its_transcript() {
    let mut m = managed(1, "h", HostSource::Launcher);
    m.session_logging = SessionLoggingOverride::On;
    let entry = HostEntry::Managed(m);
    assert_eq!(plan_transcript(false, &entry), Transcript::Wanted);
    assert_eq!(plan_transcript(true, &legacy("l")), Transcript::Off);
    let mut m = managed(1, "h", HostSource::Launcher);
    m.transport = SessionTransport::Mosh;
    assert_eq!(plan_transcript(true, &HostEntry::Managed(m)), Transcript::SkippedForMosh);

    let argv = strings(&["ssh", "h"]);
    let here = || LogAllocation::Allocated {
        path: "/d/logs/h/1.log".to_string(),
        dir: "/d/logs/h".to_string(),
    };
    let c = plan_logged_command(Transcript::Wanted, here(), argv.clone(), true, ScriptPlatform::Linux);
    assert_eq!(c.argv[0], "script");
    assert_eq!(c.log_dir, Some("/d/logs/h".to_string()));
    assert_eq!(c.warning, None);
    let c = plan_logged_command(Transcript::Wanted, here(), argv.clone(), false, ScriptPlatform::Linux);
    assert_eq!(c.argv, argv);
    assert_eq!(
        c.warning.unwrap(),
        "warning: session logging requested but script(1) unavailable; continuing without transcript"
    );
    let failed = LogAllocation::Failed("disk full".to_string());
    let c = plan_logged_command(Transcript::Wanted, failed, argv.clone(), true, ScriptPlatform::Linux);
    assert_eq!(c.warning.unwrap(), "warning: session logging unavailable: disk full");
    let c = plan_logged_command(Transcript::Wanted, LogAllocation::NoDataDir, argv.clone(), true, ScriptPlatform::Linux);
    assert!(c.warning.is_none() && c.log_dir.is_none());
    let c = plan_logged_command(Transcript::SkippedForMosh, here(), argv.clone(), true, ScriptPlatform::Linux);
    assert_eq!(c.warning.unwrap(), "warning: session logging skipped for mosh transport");
    assert_eq!(c.argv, argv);
}

#[test]
fn connect_notes_the_login() {
    let mut m = managed(1, "h", HostSource::Launcher);
    m.identity = Some(Identity {
        id: 2,
        username: Some("deploy".to_string()),
    });
    m.proxy_jump = Some("bastion".to_string());
    let entry = HostEntry::Managed(m);
    let e = connect_event(&entry, &ssh("h"), None, Some("/d".to_string()));
    assert_eq!(e.username, Some("deploy".to_string()));
    assert_eq!(e.via, "bastion");
    assert_eq!(e.status(), "launched");
    assert_eq!(e.detail, "cli connect");
    let e = connect_event(&legacy("l"), &ssh("l"), Some("no pty"), Some("/d".to_string()));
    assert_eq!(e.username, Some("ubuntu".to_string()));
    assert_eq!(e.via, "direct");
    assert_eq!(e.status(), "fail");
    assert_eq!(e.detail, "spawn failed: no pty");
    assert_eq!(e.log_dir, None);
    assert_eq!(exit_status(Some(3)), 3);
    assert_eq!(exit_status(None), 1);
}

#[test]
fn a_connection_stamps_one_host() {
    let mut hosts = vec![
        HostEntry::Managed(managed(1, "a", HostSource::Launcher)),
        legacy("b"),
        legacy("b"),
    ];
    record_connected(&mut hosts, &legacy("b"), 77);
    assert!(matches!(&hosts[1], HostEntry::Legacy { meta, .. } if meta.last_connected == Some(77)));
    assert!(matches!(&hosts[2], HostEntry::Legacy { meta, .. } if meta.last_connected == Some(3)));
    // A host with a row of the same name hides the one without.
    record_connected(&mut hosts, &legacy("a"), 78);
    assert!(matches!(&hosts[0], HostEntry::Managed(m) if m.last_connected.is_none()));
    let row = HostEntry::Managed(managed(1, "renamed", HostSource::Launcher));
    record_connected(&mut hosts, &row, 79);
    assert!(matches!(&hosts[0], HostEntry::Managed(m) if m.last_connected == Some(79)));
}

#[test]
fn an_edit_of_a_row_runs_to_its_end() {
    let p = patch(&[
        "--name", "h", "--set-name", "n", "--set-identity", "i", "--set-group", "g",
        "--clear-password",
    ]);
    let run = begin_edit(p);
    let (run, action) = cmd_edit(run, EditEvent::Found(legacy("h")));
    assert!(matches!(action, EditAction::Materialize));
    let (run, action) = cmd_edit(run, EditEvent::Materialized(true));
    assert!(matches!(action, EditAction::FindAgain));
    let host = HostEntry::Managed(managed(6, "h", HostSource::Launcher));
    let (run, action) = cmd_edit(run, EditEvent::Found(host));
    assert!(matches!(action, EditAction::FindIdentity(ref n) if n == "i"));
    let (run, action) = cmd_edit(run, EditEvent::Identity(8));
    assert!(matches!(action, EditAction::FindFreeName { ref asked, except: 6 } if asked == "n"));
    let (run, action) = cmd_edit(run, EditEvent::FreeName("n-2".to_string()));
    match action {
        EditAction::Update { id, update, name_taken } => {
            assert_eq!(id, 6);
            assert!(name_taken);
            assert_eq!(update.name, Some("n-2".to_string()));
            assert_eq!(update.identity_id, Some(Some(8)));
        }
        other => panic!("{other:?}"),
    }
    let (run, action) = cmd_edit(run, EditEvent::Finished);
    assert!(matches!(action, EditAction::FindGroups(ref g) if *g == strings(&["g"])));
    let (run, action) = cmd_edit(run, EditEvent::Groups(vec![Ok(3)]));
    assert!(matches!(action, EditAction::SetGroups { id: 6, ref groups } if *groups == vec![3]));
    let (run, action) = cmd_edit(run, EditEvent::Finished);
    assert!(matches!(action, EditAction::DeletePassword { id: 6 }));
    let (run, action) = cmd_edit(run, EditEvent::Finished);
    assert!(matches!(action, EditAction::Reload));
    let (run, action) = cmd_edit(run, EditEvent::Finished);
    assert!(matches!(action, EditAction::Print(ref n) if n == "n-2"));
    assert!(matches!(run, EditRun::Done));
    let (_, action) = cmd_edit(run, EditEvent::Finished);
    assert!(matches!(action, EditAction::Unexpected));
}

#[test]
fn a_list_is_narrowed_by_its_arguments() {
    let mut args = strings(&["--tag", "a", "--group", "g", "--tag", "b", "--json"]);
    let (tags, group) = take_list_filters(&mut args);
    assert_eq!(tags, strings(&["a", "b"]));
    assert_eq!(group, Some("g".to_string()));
    assert_eq!(args, strings(&["--json"]));
    assert_eq!(HostCommand::Search.needs(), Some("search requires <query>"));
    assert_eq!(HostCommand::Show.needs(), Some("show requires <name>"));
    assert_eq!(HostCommand::Resolve.needs(), Some("resolve requires <name>"));
    assert_eq!(HostCommand::Connect.needs(), Some("connect requires <name>"));
    assert_eq!(HostCommand::List.needs(), None);
    assert_eq!(other_name_message("n-2"), "name taken, using 'n-2'");
}

#[test]
fn other_edits_run_to_their_end() {
    // Metadata of a host without a row.
    let run = begin_edit(patch(&["--name", "h", "--set-tags", "a"]));
    let (run, action) = cmd_edit(run, EditEvent::Found(legacy("h")));
    assert!(matches!(action, EditAction::StoreMetadata(ref m) if m.tags == strings(&["a"])));
    let (run, _) = cmd_edit(run, EditEvent::Finished);
    let (_, action) = cmd_edit(run, EditEvent::Finished);
    assert!(matches!(action, EditAction::Print(ref n) if n == "h"));
    // Metadata of a row.
    let run = begin_edit(patch(&["--name", "h", "--favorite"]));
    let host = HostEntry::Managed(managed(6, "h", HostSource::SshConfig));
    let (run, action) = cmd_edit(run, EditEvent::Found(host));
    assert!(matches!(action, EditAction::Update { id: 6, ref update, name_taken: false } if update.favorite == Some(true)));
    let (_, action) = cmd_edit(run, EditEvent::Finished);
    assert!(matches!(action, EditAction::Reload));
    // Refusals.
    let run = begin_edit(patch(&["--name", "h", "--set-address", "a"]));
    let (run, _) = cmd_edit(run, EditEvent::Found(legacy("h")));
    let (_, action) = cmd_edit(run, EditEvent::Materialized(false));
    assert!(matches!(action, EditAction::Refuse(EditRefusal::NotMaterialized)));
    let run = begin_edit(patch(&["--name", "h", "--set-address", "a"]));
    let host = HostEntry::Managed(managed(6, "h", HostSource::SshConfig));
    let (_, action) = cmd_edit(run, EditEvent::Found(host));
    assert!(matches!(action, EditAction::Refuse(EditRefusal::ReadOnly)));
    // A group that is not there.
    let run = begin_edit(patch(&["--name", "h", "--set-group", "g"]));
    let host = HostEntry::Managed(managed(6, "h", HostSource::Launcher));
    let (run, _) = cmd_edit(run, EditEvent::Found(host));
    let (run, _) = cmd_edit(run, EditEvent::Finished);
    let (_, action) = cmd_edit(run, EditEvent::Groups(vec![Err("no group 'g'".to_string())]));
    assert!(matches!(action, EditAction::NoGroup(ref w) if w == "no group 'g'"));
    // A new password.
    let mut p = patch(&["--name", "h", "--set-password-stdin"]);
    p.provide_password("pw\n");
    let host = HostEntry::Managed(managed(6, "h", HostSource::Launcher));
    let (run, action) = cmd_edit(begin_edit(p), EditEvent::Found(host));
    assert!(matches!(action, EditAction::Update { ref update, .. } if update.has_password == Some(true)));
    let (_, action) = cmd_edit(run, EditEvent::Finished);
    assert!(matches!(action, EditAction::StorePassword { id: 6, ref password } if password == "pw"));
}

#[test]
fn a_new_host_is_added_step_by_step() {
    let mut asked = HostAddSpec::parse(&strings(&[
        "--name", "n", "--address", "a", "--identity", "i", "--group", "g", "--favorite",
        "--password-stdin",
    ]))
    .unwrap();
    asked.provide_password("pw");
    let (run, action) = begin_add(asked);
    assert!(matches!(action, AddAction::FindFreeName(ref n) if n == "n"));
    let (run, action) = cmd_add(run, AddEvent::FreeName("n-2".to_string()));
    assert!(matches!(action, AddAction::FindIdentity { warning: Some(ref w), ref name }
        if w == "name 'n' taken, using 'n-2'" && name == "i"));
    let (run, action) = cmd_add(run, AddEvent::Identity(5));
    assert!(matches!(action, AddAction::FindGroups { warning: None, ref names } if *names == strings(&["g"])));
    let (run, action) = cmd_add(run, AddEvent::Groups(vec![Ok(7)]));
    match action {
        AddAction::Create(host) => {
            assert_eq!(host.name, "n-2");
            assert_eq!(host.group_id, Some(7));
            assert_eq!(host.identity_id, Some(5));
            assert!(host.has_password);
        }
        other => panic!("{other:?}"),
    }
    let created = AddEvent::Created {
        id: 11,
        name: "n-2".to_string(),
    };
    let (run, action) = cmd_add(run, created);
    assert!(matches!(action, AddAction::SetGroups { id: 11, ref groups } if *groups == vec![7]));
    let (run, action) = cmd_add(run, AddEvent::Finished);
    assert!(matches!(action, AddAction::StorePassword { id: 11, ref password } if password == "pw"));
    let (run, action) = cmd_add(run, AddEvent::Finished);
    assert!(matches!(action, AddAction::FindFavorites));
    let (run, action) = cmd_add(run, AddEvent::Favorites(1));
    assert!(matches!(action, AddAction::AddToGroup { id: 11, group: 1 }));
    let (run, action) = cmd_add(run, AddEvent::Finished);
    assert!(matches!(action, AddAction::Reload));
    let (run, action) = cmd_add(run, AddEvent::Finished);
    assert!(matches!(action, AddAction::Print(ref n) if n == "n-2"));
    assert!(matches!(run, AddRun::Done));

    let asked = HostAddSpec::parse(&strings(&["--name", "n", "--address", "a", "--group", "g"])).unwrap();
    let (run, _) = begin_add(asked);
    let (run, action) = cmd_add(run, AddEvent::FreeName("n".to_string()));
    assert!(matches!(action, AddAction::FindGroups { warning: None, .. }));
    let (_, action) = cmd_add(run, AddEvent::Groups(vec![Err("no g".to_string())]));
    assert!(matches!(action, AddAction::NoGroup(ref w) if w == "no g"));
}

#[test]
fn hosts_are_duplicated_step_by_step() {
    let finding = || DuplicateRun::Finding {
        requested: Some("b".to_string()),
    };
    let row = HostEntry::Managed(managed(4, "a", HostSource::Launcher));
    let (run, action) = cmd_duplicate(finding(), DuplicateEvent::Found(row));
    assert!(matches!(action, DuplicateAction::FindFreeName(ref n) if n == "b"));
    let (run, action) = cmd_duplicate(run, DuplicateEvent::FreeName("b".to_string()));
    assert!(matches!(action, DuplicateAction::CopyRow(4)));
    let copied = DuplicateEvent::Copied {
        id: 5,
        name: "a-copy".to_string(),
    };
    let (run, action) = cmd_duplicate(run, copied);
    assert!(matches!(action, DuplicateAction::Update { id: 5, ref update } if update.name == Some("b".to_string())));
    let (run, action) = cmd_duplicate(run, DuplicateEvent::Finished);
    assert!(matches!(action, DuplicateAction::Reload));
    let (_, action) = cmd_duplicate(run, DuplicateEvent::Finished);
    assert!(matches!(action, DuplicateAction::Show(ref n) if n == "b"));
    let (run, action) = cmd_duplicate(finding(), DuplicateEvent::Found(legacy("a")));
    assert!(matches!(action, DuplicateAction::CopyLegacy { ref host, ref meta }
        if host.name == "b" && meta.host_name == "b"));
    let (run, action) = cmd_duplicate(run, DuplicateEvent::CopiedLegacy("b-2".to_string()));
    assert!(matches!(action, DuplicateAction::Reload));
    let (_, action) = cmd_duplicate(run, DuplicateEvent::Finished);
    assert!(matches!(action, DuplicateAction::Show(ref n) if n == "b-2"));
    let (_, action) = cmd_duplicate(DuplicateRun::Copying { unique: None }, DuplicateEvent::Gone);
    assert!(matches!(action, DuplicateAction::NotFound));
    assert_eq!(action.error(), Some("host not found"));
    assert_eq!(DuplicateAction::Reload.error(), None);
    assert_eq!(password_warning("locked"), "warning: storing password failed: locked");
}

#[test]
fn a_connection_in_the_terminal_runs_to_its_end() {
    let mut hosts = vec![legacy("h")];
    let mut entry = legacy("h");
    if let HostEntry::Legacy { meta, .. } = &mut entry {
        meta.session_logging = SessionLoggingOverride::On;
        meta.transport = SessionTransport::Ssh;
    }
    let resolved = ssh("h");
    let argv = strings(&["ssh", "h"]);
    let (run, action) = begin_connect(argv.clone(), false, &entry);
    assert!(matches!(action, CliConnectAction::CheckProgram));
    let (run, action) = cmd_connect(&mut hosts, &entry, &resolved, false, run,
        CliConnectEvent::ProgramChecked { found: true });
    assert!(matches!(action, CliConnectAction::AllocateLog));
    let allocated = CliConnectEvent::LogAllocated {
        allocation: LogAllocation::Allocated {
            path: "/d/h/1.log".to_string(),
            dir: "/d/h".to_string(),
        },
        script_available: true,
        platform: ScriptPlatform::MacOs,
    };
    let (run, action) = cmd_connect(&mut hosts, &entry, &resolved, false, run, allocated);
    assert!(matches!(action, CliConnectAction::Spawn { ref argv, warning: None } if argv[0] == "script"));
    let (run, action) = cmd_connect(&mut hosts, &entry, &resolved, false, run, CliConnectEvent::Spawned);
    assert!(matches!(action, CliConnectAction::NoteLaunch(ref e) if e.log_dir == Some("/d/h".to_string())));
    let (run, action) = cmd_connect(&mut hosts, &entry, &resolved, false, run, CliConnectEvent::Noted);
    assert!(matches!(action, CliConnectAction::Wait));
    let (run, action) = cmd_connect(&mut hosts, &entry, &resolved, false, run,
        CliConnectEvent::Exited { code: None });
    assert!(matches!(action, CliConnectAction::StoreTime { row: None }));
    let (run, action) = cmd_connect(&mut hosts, &entry, &resolved, false, run,
        CliConnectEvent::Stored { timestamp: 99 });
    assert!(matches!(action, CliConnectAction::Exit(1)));
    assert!(matches!(run, CliConnect::Done));
    assert!(matches!(&hosts[0], HostEntry::Legacy { meta, .. } if meta.last_connected == Some(99)));

    let (run, _) = begin_connect(argv.clone(), false, &legacy("h"));
    let (_, action) = cmd_connect(&mut hosts, &legacy("h"), &resolved, false, run,
        CliConnectEvent::ProgramChecked { found: false });
    assert!(matches!(action, CliConnectAction::MissingProgram(ref m) if m == "command not found: 'ssh'"));
    assert_eq!(action.status(), Some(1));
    let (run, _) = begin_connect(argv, false, &legacy("h"));
    let (run, action) = cmd_connect(&mut hosts, &legacy("h"), &resolved, false, run,
        CliConnectEvent::ProgramChecked { found: true });
    assert!(matches!(action, CliConnectAction::Spawn { warning: None, .. }));
    let failed = CliConnectEvent::SpawnFailed {
        detail: "no".to_string(),
    };
    let (_, action) = cmd_connect(&mut hosts, &legacy("h"), &resolved, false, run, failed);
    assert!(matches!(action, CliConnectAction::NoteFailure(ref e) if e.detail == "spawn failed: no"));
    assert_eq!(action.status(), Some(1));
    assert_eq!(CliConnectAction::Exit(7).status(), Some(7));
    assert_eq!(CliConnectAction::Wait.status(), None);
    let (_, action) = begin_connect(Vec::new(), false, &legacy("h"));
    assert!(matches!(action, CliConnectAction::EmptyCommand { warning: None }));
    assert_eq!((action.status(), action.error()), (None, Some("empty connect argv")));
}
