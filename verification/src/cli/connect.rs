//! `host connect`: the transcript, the line in the log of logins, and the exit
//! status of a session that runs in the user's own terminal.

use vstd::prelude::*;

use crate::model::{
    first_found, last_seen, law_connected_host_is_stamped, record_connected, stamped_hosts,
    HostEntry, SessionTransport, SshHost,
};
use crate::session_log::script::{script_command, wrap_script_command, ScriptPlatform};
use crate::session_log::{effective_enabled, logging_active, SessionLoggingOverride};
use crate::text::{str_opt, text_opt, texts};

verus! {

/// Whether a session keeps a transcript.
#[derive(Debug, Clone, Copy, PartialEq, Eq, Structural)]
pub enum Transcript {
    /// None is asked for.
    Off,
    /// One is asked for.
    Wanted,
    /// One is asked for, but the transport allows none.
    SkippedForMosh,
}

/// Whether a session with a host keeps a transcript.
pub open spec fn transcript_of(enabled: bool, entry: HostEntry) -> Transcript {
    if !logging_active(enabled, entry.logging()) {
        Transcript::Off
    } else if entry.reached_by() == SessionTransport::Mosh {
        Transcript::SkippedForMosh
    } else {
        Transcript::Wanted
    }
}

/// Decide whether a session with a host keeps a transcript.
pub fn plan_transcript(enabled: bool, entry: &HostEntry) -> (r: Transcript)
    ensures
        r == transcript_of(enabled, *entry),
{
    if !effective_enabled(enabled, entry.session_logging_override()) {
        Transcript::Off
    } else if entry.session_transport() == SessionTransport::Mosh {
        Transcript::SkippedForMosh
    } else {
        Transcript::Wanted
    }
}

/// What came of making room for a transcript.
#[derive(Debug)]
pub enum LogAllocation {
    /// There is no data directory.
    NoDataDir,
    /// A file was created, in a directory of the host's own.
    Allocated { path: String, dir: String },
    /// No file could be created.
    Failed(String),
}

/// The command that is run, the directory of its transcript, and a warning.
#[derive(Debug)]
pub struct LoggedCommand {
    pub argv: Vec<String>,
    pub log_dir: Option<String>,
    pub warning: Option<String>,
}

/// The command that records a session, where there is one to record and something
/// that can record it.
pub open spec fn recorded(
    log: Seq<char>,
    argv: Seq<Seq<char>>,
    script_available: bool,
    platform: ScriptPlatform,
) -> Option<Seq<Seq<char>>> {
    if argv.len() > 0 && script_available {
        script_command(platform, log, argv)
    } else {
        None
    }
}

/// The command, the directory and the warning of a session, as texts.
pub open spec fn logged_command(
    transcript: Transcript,
    allocation: LogAllocation,
    argv: Seq<Seq<char>>,
    script_available: bool,
    platform: ScriptPlatform,
) -> (Seq<Seq<char>>, Option<Seq<char>>, Option<Seq<char>>) {
    match transcript {
        Transcript::Off => (argv, None, None),
        Transcript::SkippedForMosh => (
            argv,
            None,
            Some("warning: session logging skipped for mosh transport"@),
        ),
        Transcript::Wanted => match allocation {
            LogAllocation::NoDataDir => (argv, None, None),
            LogAllocation::Failed(e) => (
                argv,
                None,
                Some("warning: session logging unavailable: "@ + e@),
            ),
            LogAllocation::Allocated { path, dir } => match recorded(
                path@,
                argv,
                script_available,
                platform,
            ) {
                Some(wrapped) => (wrapped, Some(dir@), None),
                None => (
                    argv,
                    None,
                    Some(
                        "warning: session logging requested but script(1) unavailable; continuing without transcript"@,
                    ),
                ),
            },
        },
    }
}

/// Lay out the command of a session with its transcript. A transcript that cannot be
/// had is no reason not to connect.
pub fn plan_logged_command(
    transcript: Transcript,
    allocation: LogAllocation,
    argv: Vec<String>,
    script_available: bool,
    platform: ScriptPlatform,
) -> (r: LoggedCommand)
    ensures
        (texts(r.argv@), text_opt(r.log_dir), text_opt(r.warning)) == logged_command(
            transcript,
            allocation,
            texts(argv@),
            script_available,
            platform,
        ),
{
    match transcript {
        Transcript::Off => LoggedCommand { argv, log_dir: None, warning: None },
        Transcript::SkippedForMosh => LoggedCommand {
            argv,
            log_dir: None,
            warning: Some("warning: session logging skipped for mosh transport".to_owned()),
        },
        Transcript::Wanted => match allocation {
            LogAllocation::NoDataDir => LoggedCommand { argv, log_dir: None, warning: None },
            LogAllocation::Failed(e) => {
                let mut text = "warning: session logging unavailable: ".to_owned();
                text.push_str(e.as_str());
                LoggedCommand { argv, log_dir: None, warning: Some(text) }
            },
            LogAllocation::Allocated { path, dir } => {
                match wrap_script_command(path.as_str(), &argv, script_available, platform) {
                    Some(wrapped) => LoggedCommand {
                        argv: wrapped,
                        log_dir: Some(dir),
                        warning: None,
                    },
                    None => LoggedCommand {
                        argv,
                        log_dir: None,
                        warning: Some(
                            "warning: session logging requested but script(1) unavailable; continuing without transcript".to_owned(),
                        ),
                    },
                }
            },
        },
    }
}

/// Nothing that goes wrong with a transcript changes what is run, and a transcript
/// has a directory exactly where the command was wrapped.
pub proof fn law_transcript_never_blocks(
    transcript: Transcript,
    allocation: LogAllocation,
    argv: Seq<Seq<char>>,
    script_available: bool,
    platform: ScriptPlatform,
)
    ensures
        ({
            let (run, dir, warning) = logged_command(
                transcript,
                allocation,
                argv,
                script_available,
                platform,
            );
            &&& dir is None ==> run == argv
            &&& dir is Some ==> warning is None && allocation is Allocated && recorded(
                allocation->path@,
                argv,
                script_available,
                platform,
            ) == Some(run)
        }),
{
}

/// The user name of a host's row: its own, or its identity's.
pub open spec fn row_login(entry: HostEntry) -> Option<Seq<char>> {
    match entry {
        HostEntry::Managed(m) => if m.username is Some {
            Some(m.username->0@)
        } else if m.identity is Some {
            text_opt(m.identity->0.username)
        } else {
            None
        },
        HostEntry::Legacy { host, meta } => None,
    }
}

/// The jump host of a host's row.
pub open spec fn row_jump(entry: HostEntry) -> Option<Seq<char>> {
    match entry {
        HostEntry::Managed(m) => text_opt(m.proxy_jump),
        HostEntry::Legacy { host, meta } => None,
    }
}

/// The user name of a host's row.
pub fn managed_username(entry: &HostEntry) -> (r: Option<String>)
    ensures
        text_opt(r) == row_login(*entry),
{
    match entry {
        HostEntry::Managed(m) => match &m.username {
            Some(u) => Some(u.clone()),
            None => match &m.identity {
                Some(i) => match &i.username {
                    Some(u) => Some(u.clone()),
                    None => None,
                },
                None => None,
            },
        },
        HostEntry::Legacy { host: _, meta: _ } => None,
    }
}

/// The jump host of a host's row.
pub fn managed_proxy_jump(entry: &HostEntry) -> (r: Option<String>)
    ensures
        text_opt(r) == row_jump(*entry),
{
    match entry {
        HostEntry::Managed(m) => match &m.proxy_jump {
            Some(j) => Some(j.clone()),
            None => None,
        },
        HostEntry::Legacy { host: _, meta: _ } => None,
    }
}

/// The user name under which a login is noted: the row's, or else the one that `ssh`
/// resolves.
pub open spec fn login_of(entry: HostEntry, ssh: SshHost) -> Option<Seq<char>> {
    if row_login(entry) is Some {
        row_login(entry)
    } else {
        text_opt(ssh.user)
    }
}

/// The way under which a login is noted: the row's jump host, or else the one that
/// `ssh` resolves, or else that there is none.
pub open spec fn via_of(entry: HostEntry, ssh: SshHost) -> Seq<char> {
    if row_jump(entry) is Some {
        row_jump(entry)->0
    } else if ssh.proxy_jump is Some {
        ssh.proxy_jump->0@
    } else {
        "direct"@
    }
}

/// A line in the log of logins.
#[derive(Debug)]
pub struct AuthEvent {
    pub host_name: String,
    pub username: Option<String>,
    pub via: String,
    /// Whether the session was started.
    pub launched: bool,
    pub detail: String,
    pub log_dir: Option<String>,
}

impl AuthEvent {
    /// The word for what became of a login.
    pub fn status(&self) -> (r: &'static str)
        ensures
            r@ == (if self.launched {
                "launched"@
            } else {
                "fail"@
            }),
    {
        if self.launched {
            "launched"
        } else {
            "fail"
        }
    }
}

/// The line in the log of logins about an attempt to start a session.
pub fn connect_event(
    entry: &HostEntry,
    ssh: &SshHost,
    failure: Option<&str>,
    log_dir: Option<String>,
) -> (r: AuthEvent)
    ensures
        is_connect_event(r, *entry, *ssh, str_opt(failure), text_opt(log_dir)),
{
    let username = match managed_username(entry) {
        Some(u) => Some(u),
        None => match &ssh.user {
            Some(u) => Some(u.clone()),
            None => None,
        },
    };
    let via = match managed_proxy_jump(entry) {
        Some(j) => j,
        None => match &ssh.proxy_jump {
            Some(j) => j.clone(),
            None => "direct".to_owned(),
        },
    };
    let host_name = entry.name().clone();
    match failure {
        None => AuthEvent {
            host_name,
            username,
            via,
            launched: true,
            detail: "cli connect".to_owned(),
            log_dir,
        },
        Some(e) => {
            let mut detail = "spawn failed: ".to_owned();
            detail.push_str(e);
            AuthEvent { host_name, username, via, launched: false, detail, log_dir: None }
        },
    }
}

/// What is said of a program that is not there.
pub open spec fn missing_program_text(program: Seq<char>) -> Seq<char> {
    "command not found: '"@ + program + "'"@
}

/// The exit status of a finished session: that of its program, or 1 where a signal
/// ended it.
pub fn exit_status(code: Option<i32>) -> (r: i32)
    ensures
        code is Some ==> r == code->0,
        code is None ==> r == 1,
{
    match code {
        Some(c) => c,
        None => 1,
    }
}

// ---------------------------------------------------------------------------
// The whole command

/// What a connection waits for.
#[derive(Debug)]
pub enum CliConnect {
    /// The program to be looked for.
    Checking { argv: Vec<String> },
    /// Room for a transcript to be made.
    Allocating { argv: Vec<String> },
    /// The session to be started.
    Spawning { log_dir: Option<String> },
    /// The login to be noted.
    Noting,
    /// The session to end.
    Waiting,
    /// The time of the connection to be stored.
    Storing { code: Option<i32> },
    /// Nothing.
    Done,
}

/// What came of the outside work.
#[derive(Debug)]
pub enum CliConnectEvent {
    ProgramChecked { found: bool },
    /// Room for a transcript was made or not, and something can record one or not.
    LogAllocated {
        allocation: LogAllocation,
        script_available: bool,
        platform: ScriptPlatform,
    },
    Spawned,
    SpawnFailed { detail: String },
    /// The login was noted, or could not be.
    Noted,
    /// The session ended, with the status of its program or by a signal.
    Exited { code: Option<i32> },
    /// The time of the connection was stored.
    Stored { timestamp: i64 },
}

/// The outside work that comes next.
#[derive(Debug)]
pub enum CliConnectAction {
    CheckProgram,
    AllocateLog,
    /// Say what went wrong with the transcript, then start the session.
    Spawn { argv: Vec<String>, warning: Option<String> },
    NoteLaunch(AuthEvent),
    /// Note that the login failed, and say why.
    NoteFailure(AuthEvent),
    Wait,
    /// Store the time of the connection, in the host's row if it has one.
    StoreTime { row: Option<i64> },
    /// Nothing is left to do.
    Exit(i32),
    /// The program is not there.
    MissingProgram(String),
    /// Say what went wrong with the transcript; there is nothing to run.
    EmptyCommand { warning: Option<String> },
    /// What was reported does not fit what was waited for.
    Unexpected,
}

impl CliConnectAction {
    /// The exit status of the command, where an action is its last one.
    pub open spec fn status_number(self) -> Option<i32> {
        match self {
            CliConnectAction::Exit(code) => Some(code),
            CliConnectAction::MissingProgram(_) => Some(1),
            CliConnectAction::NoteFailure(_) => Some(1),
            _ => None,
        }
    }

    /// The exit status of the command, where an action is its last one.
    pub fn status(&self) -> (r: Option<i32>)
        ensures
            r == self.status_number(),
    {
        match self {
            CliConnectAction::Exit(code) => Some(*code),
            CliConnectAction::MissingProgram(_) => Some(1),
            CliConnectAction::NoteFailure(_) => Some(1),
            _ => None,
        }
    }

    /// What the command fails with, where it has nothing to run.
    pub open spec fn error_text(self) -> Option<Seq<char>> {
        match self {
            CliConnectAction::EmptyCommand { .. } => Some("empty connect argv"@),
            _ => None,
        }
    }

    /// What the command fails with, where it has nothing to run.
    pub fn error(&self) -> (r: Option<&'static str>)
        ensures
            str_opt(r) == self.error_text(),
    {
        match self {
            CliConnectAction::EmptyCommand { .. } => Some("empty connect argv"),
            _ => None,
        }
    }
}

/// Whether a session is started as it is laid out, if there is something to run.
pub open spec fn started_as(
    laid_out: (Seq<Seq<char>>, Option<Seq<char>>, Option<Seq<char>>),
    then: CliConnect,
    action: CliConnectAction,
) -> bool {
    if laid_out.0.len() == 0 {
        then is Done && (action matches CliConnectAction::EmptyCommand { warning } && text_opt(
            warning,
        ) == laid_out.2)
    } else {
        (then matches CliConnect::Spawning { log_dir } && text_opt(log_dir) == laid_out.1) && (
        action matches CliConnectAction::Spawn { argv, warning } && texts(argv@) == laid_out.0
            && text_opt(warning) == laid_out.2)
    }
}

/// Whether what follows the check of the program is right: room is made for a
/// transcript that is wanted, and any other session is started.
pub open spec fn checked(
    argv: Seq<Seq<char>>,
    transcript: Transcript,
    then: CliConnect,
    action: CliConnectAction,
) -> bool {
    if transcript == Transcript::Wanted {
        (then matches CliConnect::Allocating { argv: kept } && texts(kept@) == argv)
            && action is AllocateLog
    } else {
        started_as(
            logged_command(
                transcript,
                LogAllocation::NoDataDir,
                argv,
                false,
                ScriptPlatform::Other,
            ),
            then,
            action,
        )
    }
}

/// Whether a line in the log of logins is about an attempt to start a session.
pub open spec fn is_connect_event(
    event: AuthEvent,
    entry: HostEntry,
    ssh: SshHost,
    failure: Option<Seq<char>>,
    log_dir: Option<Seq<char>>,
) -> bool {
    &&& event.host_name@ == entry.called()
    &&& text_opt(event.username) == login_of(entry, ssh)
    &&& event.via@ == via_of(entry, ssh)
    &&& event.launched == (failure is None)
    &&& failure is None ==> event.detail@ == "cli connect"@ && text_opt(event.log_dir) == log_dir
    &&& failure is Some ==> event.detail@ == "spawn failed: "@ + failure->0 && event.log_dir
        is None
}

/// Whether a step of a connection is the right one.
pub open spec fn cli_connect_stepped(
    entry: HostEntry,
    ssh: SshHost,
    enabled: bool,
    hosts: Seq<HostEntry>,
    run: CliConnect,
    event: CliConnectEvent,
    hosts_after: Seq<HostEntry>,
    then: CliConnect,
    action: CliConnectAction,
) -> bool {
    match (run, event) {
        (CliConnect::Checking { argv }, CliConnectEvent::ProgramChecked { found }) => {
            &&& hosts_after == hosts
            &&& if argv@.len() > 0 && !found {
                then is Done && (action matches CliConnectAction::MissingProgram(m) && m@
                    == missing_program_text(argv@[0]@))
            } else {
                checked(texts(argv@), transcript_of(enabled, entry), then, action)
            }
        },
        (
            CliConnect::Allocating { argv },
            CliConnectEvent::LogAllocated { allocation, script_available, platform },
        ) => {
            &&& hosts_after == hosts
            &&& started_as(
                logged_command(
                    Transcript::Wanted,
                    allocation,
                    texts(argv@),
                    script_available,
                    platform,
                ),
                then,
                action,
            )
        },
        (CliConnect::Spawning { log_dir }, CliConnectEvent::Spawned) => {
            &&& hosts_after == hosts
            &&& then is Noting
            &&& action matches CliConnectAction::NoteLaunch(e) && is_connect_event(
                e,
                entry,
                ssh,
                None,
                text_opt(log_dir),
            )
        },
        (CliConnect::Spawning { log_dir }, CliConnectEvent::SpawnFailed { detail }) => {
            &&& hosts_after == hosts
            &&& then is Done
            &&& action matches CliConnectAction::NoteFailure(e) && is_connect_event(
                e,
                entry,
                ssh,
                Some(detail@),
                None,
            )
        },
        (CliConnect::Noting, CliConnectEvent::Noted) => hosts_after == hosts && then is Waiting
            && action is Wait,
        (CliConnect::Waiting, CliConnectEvent::Exited { code }) => hosts_after == hosts && then
            == (CliConnect::Storing { code }) && action == (CliConnectAction::StoreTime {
            row: entry.row(),
        }),
        (CliConnect::Storing { code }, CliConnectEvent::Stored { timestamp }) => {
            &&& hosts_after == stamped_hosts(hosts, entry, timestamp)
            &&& then is Done
            &&& action == CliConnectAction::Exit(
                if code is Some {
                    code->0
                } else {
                    1
                },
            )
        },
        _ => hosts_after == hosts && then == run && action is Unexpected,
    }
}

fn start_as(command: LoggedCommand) -> (r: (CliConnect, CliConnectAction))
    ensures
        started_as(
            (texts(command.argv@), text_opt(command.log_dir), text_opt(command.warning)),
            r.0,
            r.1,
        ),
{
    if command.argv.len() == 0 {
        (CliConnect::Done, CliConnectAction::EmptyCommand { warning: command.warning })
    } else {
        (
            CliConnect::Spawning { log_dir: command.log_dir },
            CliConnectAction::Spawn { argv: command.argv, warning: command.warning },
        )
    }
}

fn after_check(argv: Vec<String>, transcript: Transcript) -> (r: (CliConnect, CliConnectAction))
    ensures
        checked(texts(argv@), transcript, r.0, r.1),
{
    if transcript == Transcript::Wanted {
        (CliConnect::Allocating { argv }, CliConnectAction::AllocateLog)
    } else {
        start_as(
            plan_logged_command(
                transcript,
                LogAllocation::NoDataDir,
                argv,
                false,
                ScriptPlatform::Other,
            ),
        )
    }
}

/// Begin a connection: the program is looked for, if there is one.
pub fn begin_connect(argv: Vec<String>, enabled: bool, entry: &HostEntry) -> (r: (
    CliConnect,
    CliConnectAction,
))
    ensures
        argv@.len() > 0 ==> r.0 == (CliConnect::Checking { argv }) && r.1 is CheckProgram,
        argv@.len() == 0 ==> checked(
            texts(argv@),
            transcript_of(enabled, *entry),
            r.0,
            r.1,
        ),
{
    if argv.len() > 0 {
        (CliConnect::Checking { argv }, CliConnectAction::CheckProgram)
    } else {
        after_check(argv, plan_transcript(enabled, entry))
    }
}

/// Go on with a connection after the outside work that was waited for, and say what
/// comes next.
pub fn cmd_connect(
    hosts: &mut Vec<HostEntry>,
    entry: &HostEntry,
    ssh: &SshHost,
    enabled: bool,
    run: CliConnect,
    event: CliConnectEvent,
) -> (r: (CliConnect, CliConnectAction))
    ensures
        cli_connect_stepped(
            *entry,
            *ssh,
            enabled,
            old(hosts)@,
            run,
            event,
            final(hosts)@,
            r.0,
            r.1,
        ),
{
    match (run, event) {
        (CliConnect::Checking { argv }, CliConnectEvent::ProgramChecked { found }) => {
            if argv.len() > 0 && !found {
                let mut text = "command not found: '".to_owned();
                text.push_str(argv[0].as_str());
                text.push_str("'");
                (CliConnect::Done, CliConnectAction::MissingProgram(text))
            } else {
                after_check(argv, plan_transcript(enabled, entry))
            }
        },
        (
            CliConnect::Allocating { argv },
            CliConnectEvent::LogAllocated { allocation, script_available, platform },
        ) => start_as(
            plan_logged_command(
                Transcript::Wanted,
                allocation,
                argv,
                script_available,
                platform,
            ),
        ),
        (CliConnect::Spawning { log_dir }, CliConnectEvent::Spawned) => (
            CliConnect::Noting,
            CliConnectAction::NoteLaunch(connect_event(entry, ssh, None, log_dir)),
        ),
        (CliConnect::Spawning { log_dir: _ }, CliConnectEvent::SpawnFailed { detail }) => (
            CliConnect::Done,
            CliConnectAction::NoteFailure(connect_event(entry, ssh, Some(detail.as_str()), None)),
        ),
        (CliConnect::Noting, CliConnectEvent::Noted) => (
            CliConnect::Waiting,
            CliConnectAction::Wait,
        ),
        (CliConnect::Waiting, CliConnectEvent::Exited { code }) => (
            CliConnect::Storing { code },
            CliConnectAction::StoreTime { row: entry.managed_id() },
        ),
        (CliConnect::Storing { code }, CliConnectEvent::Stored { timestamp }) => {
            record_connected(hosts, entry, timestamp);
            (CliConnect::Done, CliConnectAction::Exit(exit_status(code)))
        },
        (run, _) => (run, CliConnectAction::Unexpected),
    }
}

/// How far a connection is from its end.
pub open spec fn connect_left(run: CliConnect) -> nat {
    match run {
        CliConnect::Checking { argv } => 6,
        CliConnect::Allocating { argv } => 5,
        CliConnect::Spawning { log_dir } => 4,
        CliConnect::Noting => 3,
        CliConnect::Waiting => 2,
        CliConnect::Storing { code } => 1,
        CliConnect::Done => 0,
    }
}

/// Every report that fits brings a connection nearer to its end, the time of a
/// connection is stored only once its session was started, and the last step, and no
/// other, has an exit status or an error.
pub proof fn law_cli_connect_ends(
    entry: HostEntry,
    ssh: SshHost,
    enabled: bool,
    hosts: Seq<HostEntry>,
    run: CliConnect,
    event: CliConnectEvent,
    hosts_after: Seq<HostEntry>,
    then: CliConnect,
    action: CliConnectAction,
)
    requires
        cli_connect_stepped(entry, ssh, enabled, hosts, run, event, hosts_after, then, action),
    ensures
        action is Unexpected ==> then == run,
        !(action is Unexpected) ==> connect_left(then) < connect_left(run),
        hosts_after != hosts ==> run is Storing,
        action is StoreTime ==> run is Waiting,
        action is Wait ==> run is Noting,
        action is NoteLaunch ==> run is Spawning && event is Spawned,
        !(action is Unexpected) ==> (then is Done <==> action.status_number() is Some
            || action.error_text() is Some),
{
}

/// A transcript is kept where the host asks for one, or leaves it to a setting that does,
/// unless it is reached by mosh; then the user is told that there is none.
pub proof fn law_transcript_is_kept_as_asked(enabled: bool, entry: HostEntry)
    ensures
        ({
            let on = entry.logging() == SessionLoggingOverride::On || (entry.logging()
                == SessionLoggingOverride::Inherit && enabled);
            let mosh = entry.reached_by() == SessionTransport::Mosh;
            &&& (transcript_of(enabled, entry) == Transcript::Off <==> !on)
            &&& (transcript_of(enabled, entry) == Transcript::Wanted <==> on && !mosh)
            &&& (transcript_of(enabled, entry) == Transcript::SkippedForMosh <==> on && mosh)
        }),
{
}

/// What is run, where its transcript is, and what the user is told: the command is
/// recorded exactly where a transcript is wanted, room for it was made and something can
/// record it; a warning says why it is not, unless there is no data directory at all.
pub proof fn law_logged_command_case_by_case(
    transcript: Transcript,
    allocation: LogAllocation,
    argv: Seq<Seq<char>>,
    script_available: bool,
    platform: ScriptPlatform,
)
    ensures
        ({
            let (run, dir, warning) = logged_command(
                transcript,
                allocation,
                argv,
                script_available,
                platform,
            );
            let wanted = transcript == Transcript::Wanted;
            let can = argv.len() > 0 && script_available && platform != ScriptPlatform::Other;
            &&& (dir is Some <==> wanted && allocation is Allocated && can)
            &&& (dir is Some ==> dir->0 == allocation->dir@ && run[0] == "script"@)
            &&& (dir is Some && platform == ScriptPlatform::Linux ==> run[3] == allocation->path@
                && crate::session_log::script::shell_words(run[5]) == Some(argv))
            &&& (dir is Some && platform == ScriptPlatform::MacOs ==> run[2] == allocation->path@
                && run.skip(3) == argv)
            &&& (transcript == Transcript::SkippedForMosh ==> warning == Some(
                "warning: session logging skipped for mosh transport"@,
            ))
            &&& (wanted && allocation is Failed ==> warning == Some(
                "warning: session logging unavailable: "@ + allocation->Failed_0@,
            ))
            &&& (wanted && allocation is Allocated && !can ==> warning == Some(
                "warning: session logging requested but script(1) unavailable; continuing without transcript"@,
            ))
            &&& (transcript == Transcript::Off || (wanted && allocation is NoDataDir) ==> warning
                is None)
        }),
{
    crate::session_log::script::law_script_records_the_command(
        platform,
        if allocation is Allocated {
            allocation->path@
        } else {
            Seq::empty()
        },
        argv,
    );
}

/// Under whom and by which way a login is noted: as the host's row says, its own user
/// before its identity's, and otherwise as `ssh` resolves it; a way that no one names is
/// the direct one.
pub proof fn law_login_is_the_rows_or_the_resolved_one(entry: HostEntry, ssh: SshHost)
    ensures
        match entry {
            HostEntry::Managed(m) => {
                let own = m.username is Some;
                let lent = !own && m.identity is Some && m.identity->0.username is Some;
                &&& (own ==> login_of(entry, ssh) == Some(m.username->0@))
                &&& (lent ==> login_of(entry, ssh) == Some(m.identity->0.username->0@))
                &&& (!own && !lent ==> login_of(entry, ssh) == text_opt(ssh.user))
                &&& (m.proxy_jump is Some ==> via_of(entry, ssh) == m.proxy_jump->0@)
                &&& (m.proxy_jump is None && ssh.proxy_jump is Some ==> via_of(entry, ssh)
                    == ssh.proxy_jump->0@)
                &&& (m.proxy_jump is None && ssh.proxy_jump is None ==> via_of(entry, ssh)
                    == "direct"@)
            },
            HostEntry::Legacy { host, meta } => {
                &&& login_of(entry, ssh) == text_opt(ssh.user)
                &&& (ssh.proxy_jump is Some ==> via_of(entry, ssh) == ssh.proxy_jump->0@)
                &&& (ssh.proxy_jump is None ==> via_of(entry, ssh) == "direct"@)
            },
        },
{
}

/// What a connection from the command line notes of the login: that it was launched
/// exactly where the session was started, and the transcript's directory only then.
pub proof fn law_cli_login_is_noted(
    entry: HostEntry,
    ssh: SshHost,
    enabled: bool,
    hosts: Seq<HostEntry>,
    run: CliConnect,
    event: CliConnectEvent,
    hosts_after: Seq<HostEntry>,
    then: CliConnect,
    action: CliConnectAction,
)
    requires
        cli_connect_stepped(entry, ssh, enabled, hosts, run, event, hosts_after, then, action),
        action is NoteLaunch || action is NoteFailure,
    ensures
        ({
            let noted = if action is NoteLaunch {
                action->NoteLaunch_0
            } else {
                action->NoteFailure_0
            };
            &&& noted.host_name@ == entry.called()
            &&& text_opt(noted.username) == login_of(entry, ssh)
            &&& noted.via@ == via_of(entry, ssh)
            &&& noted.launched == (action is NoteLaunch) && noted.launched == (event is Spawned)
            &&& (noted.launched ==> noted.detail@ == "cli connect"@ && text_opt(noted.log_dir)
                == text_opt(run->log_dir))
            &&& (!noted.launched ==> noted.detail@ == "spawn failed: "@ + event->detail@
                && noted.log_dir is None)
        }),
{
}

/// A connection from the command line goes from the program to the session, its end and
/// the time of the connection. A program that is missing is named and nothing is run;
/// what is run is the command itself or what records it; the exit status is that of the
/// session's program, or one where a signal ended it.
pub proof fn law_cli_connect_step_by_step(
    entry: HostEntry,
    ssh: SshHost,
    enabled: bool,
    hosts: Seq<HostEntry>,
    run: CliConnect,
    event: CliConnectEvent,
    hosts_after: Seq<HostEntry>,
    then: CliConnect,
    action: CliConnectAction,
)
    requires
        cli_connect_stepped(entry, ssh, enabled, hosts, run, event, hosts_after, then, action),
    ensures
        run is Checking && event is ProgramChecked && run->Checking_argv@.len() > 0
            && !event->found ==> action is MissingProgram && action->MissingProgram_0@
            == "command not found: '"@ + run->Checking_argv@[0]@ + "'"@ && then is Done,
        run is Checking && event is ProgramChecked && event->found && run->Checking_argv@.len()
            > 0 ==> if transcript_of(enabled, entry) == Transcript::Wanted {
            action is AllocateLog && texts(then->Allocating_argv@) == texts(run->Checking_argv@)
        } else {
            action is Spawn && texts(action->argv@) == texts(run->Checking_argv@) && then
                is Spawning && then->log_dir is None
        },
        run is Allocating && event is LogAllocated && run->Allocating_argv@.len() > 0 ==> action
            is Spawn && then is Spawning && (then->log_dir is None ==> texts(action->argv@)
            == texts(run->Allocating_argv@)) && (then->log_dir is Some ==> event->allocation
            is Allocated && then->log_dir->0@ == event->allocation->dir@),
        run is Spawning && event is Spawned ==> action is NoteLaunch && then is Noting,
        run is Spawning && event is SpawnFailed ==> action is NoteFailure && then is Done,
        run is Noting && event is Noted ==> action is Wait && then is Waiting,
        run is Waiting && event is Exited ==> action == (CliConnectAction::StoreTime {
            row: match entry {
                HostEntry::Managed(m) => Some(m.id),
                HostEntry::Legacy { host, meta } => None,
            },
        }) && then == (CliConnect::Storing { code: event->code }),
        run is Storing && event is Stored && run->code is Some ==> action
            == CliConnectAction::Exit(run->code->0),
        run is Storing && event is Stored && run->code is None ==> action
            == CliConnectAction::Exit(1),
        run is Storing && event is Stored ==> hosts_after.len() == hosts.len() && forall|i: int|
            0 <= i < hosts.len() && first_found(hosts, entry, i) && (entry is Managed || hosts[i]
                is Legacy) ==> last_seen(#[trigger] hosts_after[i]) == Some(event->timestamp),
        !(event is Stored) ==> hosts_after == hosts,
        action.status_number() is Some && !(action is Exit) ==> action.status_number() == Some(
            1i32,
        ),
        action is Exit ==> action.status_number() == Some(action->Exit_0),
{
    if run is Storing && event is Stored {
        law_connected_host_is_stamped(hosts, entry, event->timestamp);
    }
    if run is Checking {
        assert(texts(run->Checking_argv@).len() == run->Checking_argv@.len());
    }
    if run is Allocating && event is LogAllocated {
        let argv = texts(run->Allocating_argv@);
        assert(argv.len() == run->Allocating_argv@.len());
        law_logged_command_case_by_case(
            Transcript::Wanted,
            event->allocation,
            argv,
            event->script_available,
            event->platform,
        );
        law_transcript_never_blocks(
            Transcript::Wanted,
            event->allocation,
            argv,
            event->script_available,
            event->platform,
        );
    }
}

/// A connection fails with a message exactly where it has nothing to run, and a program
/// that is not there is named in quotes.
pub proof fn law_failed_connections_are_told(action: CliConnectAction, program: Seq<char>)
    ensures
        action.error_text() is Some <==> action is EmptyCommand,
        action is EmptyCommand ==> action.error_text()->0 == "empty connect argv"@,
        missing_program_text(program).len() == program.len() + 21,
        missing_program_text(program).take(20) == "command not found: '"@,
        missing_program_text(program).subrange(20, 20 + program.len() as int) == program,
        missing_program_text(program).last() == '\'',
{
    reveal_strlit("command not found: '");
    reveal_strlit("'");
    assert(missing_program_text(program).take(20) =~= "command not found: '"@);
    assert(missing_program_text(program).subrange(20, 20 + program.len() as int) =~= program);
}

} // verus!
