//! Connecting to a host of the list.
//!
//! The caller does the outside work: it resolves the stored secret, looks for the
//! program, starts the session, opens its log and writes to the database. After
//! each of these it reports what came of it and is told what to do next.

use vstd::prelude::*;

use crate::app::{
    after_command_check, after_spawn_failure, lines_of_others, spawn_failure_text, App, AppView,
    LogLevel, Session, SessionPhase, SshLogEntry,
};
use crate::cli::connect::{managed_proxy_jump, managed_username, row_jump, row_login, AuthEvent};
use crate::model::{
    first_found, last_seen, law_connected_host_is_stamped, record_connected, stamped_hosts,
    HostEntry, HostUpdate,
};
use crate::session_log::{effective_enabled, logging_active, SessionLoggingOverride};
use crate::text::{chars_of, text_opt, texts};

verus! {

/// What a connection waits for.
#[derive(Debug, Clone, Copy, PartialEq, Eq, Structural)]
pub enum ConnectStage {
    /// The stored secret is being resolved.
    Secret,
    /// The program is being looked for.
    Program,
    /// The session is being started.
    Spawn,
    /// The session's log is being opened.
    Log,
    /// The login is being noted.
    Note,
    /// The time of the connection is being stored.
    Store,
    /// The shown logins are being refreshed.
    Refresh,
    /// The search for the operating system is being ordered.
    Detect,
    /// Nothing: the connection is made, or was given up.
    Done,
}

/// A connection that is being made.
#[derive(Debug)]
pub struct Connection {
    pub stage: ConnectStage,
    /// When the command was shown in the log.
    pub shown_at: i64,
}

/// What came of the outside work.
#[derive(Debug)]
pub enum ConnectEvent {
    /// The stored secret was resolved: what is said of it, and whether there is one.
    SecretResolved { note: String, present: bool },
    /// The program was looked for.
    ProgramChecked { found: bool },
    /// The session was started.
    Spawned,
    /// The session could not be started.
    SpawnFailed { detail: String },
    /// The log was opened, in a directory of the host's own.
    LogOpened { dir: String },
    /// The log could not be opened.
    LogFailed { detail: String },
    /// The login was noted, or could not be.
    Noted,
    /// The time of the connection was stored.
    Stored { timestamp: i64 },
    /// The time of the connection could not be stored.
    StoreFailed,
    /// The shown logins were refreshed.
    Refreshed,
    /// The search for the operating system was ordered, or could not be.
    DetectOrdered { accepted: bool },
}

/// The outside work that comes next.
#[derive(Debug)]
pub enum ConnectAction {
    /// Look for the program of the command.
    CheckProgram,
    /// Start the session in a terminal of this size.
    Spawn { rows: u16, cols: u16 },
    /// Open a log for the session.
    OpenLog,
    /// Note the login.
    Note(AuthEvent),
    /// Note that the login failed; nothing comes after that.
    NoteFailure(AuthEvent),
    /// Store the time of the connection, in the host's row if it has one.
    StoreTime { row: Option<i64> },
    /// Refresh the shown logins.
    Refresh,
    /// Order the search for the host's operating system.
    Detect { host_id: i64 },
    /// Nothing is left to do.
    Finish,
    /// What was reported does not fit what was waited for.
    Unexpected,
}

/// The session that is opened for a host.
pub open spec fn is_session_of(session: Session, name: Seq<char>) -> bool {
    &&& session.display_name@ == name
    &&& session.host_name@ == name
    &&& session.phase == SessionPhase::Connecting
}

/// A line in the log of logins about a host of the list. Only what its row says is
/// noted of its user and its way.
pub open spec fn is_login(
    event: AuthEvent,
    entry: HostEntry,
    launched: bool,
    detail: Seq<char>,
    log_dir: Option<Seq<char>>,
) -> bool {
    &&& event.host_name@ == entry.called()
    &&& text_opt(event.username) == row_login(entry)
    &&& event.via@ == (if row_jump(entry) is Some {
        row_jump(entry)->0
    } else {
        "direct"@
    })
    &&& event.launched == launched
    &&& event.detail@ == detail
    &&& text_opt(event.log_dir) == log_dir
}

/// What is said of a log that could not be opened.
pub open spec fn log_failure_text(detail: Seq<char>) -> Seq<char> {
    "Session logging unavailable: "@ + detail
}

/// The host whose operating system is to be looked for after a connection: one with
/// a row that names none, unless it is being looked for already or nothing can look.
pub open spec fn to_detect(app: AppView, entry: HostEntry) -> Option<i64> {
    match entry {
        HostEntry::Managed(m) => if (m.os_icon is None || m.os_icon->0@.len() == 0)
            && !app.os_detect_inflight.contains(m.id) && app.fixed.os_detector {
            Some(m.id)
        } else {
            None
        },
        HostEntry::Legacy { host, meta } => None,
    }
}

/// Whether a started session, with its log or without, is taken up as it should be:
/// it takes the screen and the login is noted.
pub open spec fn taken_up(
    before: AppView,
    after: AppView,
    entry: HostEntry,
    log_dir: Option<Seq<char>>,
    action: ConnectAction,
) -> bool {
    &&& exists|session: Session|
        is_session_of(session, entry.called()) && after == #[trigger] before.with_session(
            session,
            true,
        )
    &&& action matches ConnectAction::Note(event) && is_login(
        event,
        entry,
        true,
        "session started"@,
        log_dir,
    )
}

/// Whether a step of a connection is the right one: from what was waited for and what
/// was reported, the new state, what is waited for next and the outside work.
pub open spec fn connect_stepped(
    before: AppView,
    entry: HostEntry,
    argv: Seq<Seq<char>>,
    at: Connection,
    event: ConnectEvent,
    now: i64,
    after: AppView,
    then: Connection,
    action: ConnectAction,
) -> bool {
    let name = entry.called();
    let (rows, cols) = before.session_size();
    match (at.stage, event) {
        (ConnectStage::Secret, ConnectEvent::SecretResolved { note, present }) => {
            let cleared = AppView { ssh_log: lines_of_others(before.ssh_log, name), ..before };
            let noted = cleared.logged(
                name,
                note@,
                if present {
                    LogLevel::Success
                } else {
                    LogLevel::Info
                },
                now,
            );
            if argv.len() > 0 {
                &&& after == noted
                &&& then == (Connection { stage: ConnectStage::Program, ..at })
                &&& action is CheckProgram
            } else {
                &&& after == after_command_check(noted, name, argv, true, now)
                &&& then == (Connection { stage: ConnectStage::Spawn, shown_at: now })
                &&& action == (ConnectAction::Spawn { rows, cols })
            }
        },
        (ConnectStage::Program, ConnectEvent::ProgramChecked { found }) => {
            &&& after == after_command_check(before, name, argv, found, now)
            &&& if argv.len() > 0 && !found {
                &&& then == (Connection { stage: ConnectStage::Done, ..at })
                &&& action is Finish
            } else {
                &&& then == (Connection { stage: ConnectStage::Spawn, shown_at: now })
                &&& action == (ConnectAction::Spawn { rows, cols })
            }
        },
        (ConnectStage::Spawn, ConnectEvent::Spawned) => {
            if logging_active(before.fixed.logging_enabled, entry.logging()) {
                &&& after == before
                &&& then == (Connection { stage: ConnectStage::Log, ..at })
                &&& action is OpenLog
            } else {
                &&& taken_up(before, after, entry, None, action)
                &&& then == (Connection { stage: ConnectStage::Note, ..at })
            }
        },
        (ConnectStage::Spawn, ConnectEvent::SpawnFailed { detail }) => {
            &&& after == after_spawn_failure(before, name, detail@, at.shown_at)
            &&& then == (Connection { stage: ConnectStage::Done, ..at })
            &&& action matches ConnectAction::NoteFailure(noted) && is_login(
                noted,
                entry,
                false,
                spawn_failure_text(detail@),
                None,
            )
        },
        (ConnectStage::Log, ConnectEvent::LogOpened { dir }) => {
            &&& taken_up(before, after, entry, Some(dir@), action)
            &&& then == (Connection { stage: ConnectStage::Note, ..at })
        },
        (ConnectStage::Log, ConnectEvent::LogFailed { detail }) => {
            &&& taken_up(
                before.noticed(log_failure_text(detail@)),
                after,
                entry,
                None,
                action,
            )
            &&& then == (Connection { stage: ConnectStage::Note, ..at })
        },
        (ConnectStage::Note, ConnectEvent::Noted) => {
            &&& after == before
            &&& then == (Connection { stage: ConnectStage::Store, ..at })
            &&& action == (ConnectAction::StoreTime { row: entry.row() })
        },
        (ConnectStage::Store, ConnectEvent::Stored { timestamp }) => {
            &&& after == (AppView {
                hosts: stamped_hosts(before.hosts, entry, timestamp),
                ..before
            })
            &&& then == (Connection { stage: ConnectStage::Refresh, ..at })
            &&& action is Refresh
        },
        (ConnectStage::Store, ConnectEvent::StoreFailed) => {
            &&& after == before
            &&& then == (Connection { stage: ConnectStage::Done, ..at })
            &&& action is Finish
        },
        (ConnectStage::Refresh, ConnectEvent::Refreshed) => {
            &&& after == before
            &&& match to_detect(before, entry) {
                Some(id) => {
                    &&& then == (Connection { stage: ConnectStage::Detect, ..at })
                    &&& action == (ConnectAction::Detect { host_id: id })
                },
                None => {
                    &&& then == (Connection { stage: ConnectStage::Done, ..at })
                    &&& action is Finish
                },
            }
        },
        (ConnectStage::Detect, ConnectEvent::DetectOrdered { accepted }) => {
            &&& after == (AppView {
                os_detect_inflight: if accepted && entry.row() is Some {
                    before.os_detect_inflight.insert(entry.row()->0)
                } else {
                    before.os_detect_inflight
                },
                ..before
            })
            &&& then == (Connection { stage: ConnectStage::Done, ..at })
            &&& action is Finish
        },
        _ => after == before && then == at && action is Unexpected,
    }
}

fn login_event(entry: &HostEntry, launched: bool, detail: String, log_dir: Option<String>) -> (r:
    AuthEvent)
    ensures
        is_login(r, *entry, launched, detail@, text_opt(log_dir)),
{
    let via = match managed_proxy_jump(entry) {
        Some(j) => j,
        None => "direct".to_owned(),
    };
    AuthEvent {
        host_name: entry.name().clone(),
        username: managed_username(entry),
        via,
        launched,
        detail,
        log_dir,
    }
}

impl App {
    /// The selected host, which is to be connected to: its place in the list, and
    /// what is waited for first.
    pub fn connect_selected(&self) -> (r: Option<(usize, Connection)>)
        ensures
            match r {
                Some((i, c)) => self@.selection() == Some(i as int) && c.stage
                    == ConnectStage::Secret,
                None => self@.selection() is None,
            },
    {
        match self.selected_entry() {
            Some(i) => self.connect_host_at(i),
            None => None,
        }
    }

    /// The host at a place in the list, which is to be connected to, if there is one.
    pub fn connect_host_at(&self, host_idx: usize) -> (r: Option<(usize, Connection)>)
        ensures
            match r {
                Some((i, c)) => i == host_idx && i < self.hosts@.len() && c.stage
                    == ConnectStage::Secret,
                None => host_idx >= self.hosts@.len(),
            },
    {
        if host_idx < self.hosts.len() {
            Some((host_idx, Connection { stage: ConnectStage::Secret, shown_at: 0 }))
        } else {
            None
        }
    }

    /// Take up a started session and note the login.
    fn take_up(&mut self, entry: &HostEntry, log_dir: Option<String>) -> (r: ConnectAction)
        ensures
            taken_up(old(self)@, final(self)@, *entry, text_opt(log_dir), r),
    {
        let session = Session {
            display_name: entry.name().clone(),
            host_name: entry.name().clone(),
            phase: SessionPhase::Connecting,
        };
        let ghost opened = session;
        let ghost before = self@;
        self.open_session(session, true);
        assert(is_session_of(opened, entry.called()) && self@ == before.with_session(opened, true));
        ConnectAction::Note(login_event(entry, true, "session started".to_owned(), log_dir))
    }

    /// The host whose operating system is to be looked for after a connection.
    pub fn host_to_detect(&self, entry: &HostEntry) -> (r: Option<i64>)
        ensures
            r == to_detect(self@, *entry),
    {
        broadcast use vstd::std_specs::hash::group_hash_axioms;

        match entry {
            HostEntry::Managed(m) => {
                let empty: bool = match &m.os_icon {
                    Some(icon) => chars_of(icon.as_str()).len() == 0,
                    None => true,
                };
                if empty && !self.os_detect_inflight.contains(&m.id) && self.os_detector {
                    Some(m.id)
                } else {
                    None
                }
            },
            HostEntry::Legacy { host: _, meta: _ } => None,
        }
    }

    /// Go on with a connection to a host after the outside work that was waited for,
    /// and say what comes next.
    pub fn connect_host_entry(
        &mut self,
        entry: &HostEntry,
        argv: &Vec<String>,
        at: Connection,
        event: ConnectEvent,
        now: i64,
    ) -> (r: (Connection, ConnectAction))
        ensures
            connect_stepped(
                old(self)@,
                *entry,
                texts(argv@),
                at,
                event,
                now,
                final(self)@,
                r.0,
                r.1,
            ),
    {
        broadcast use vstd::std_specs::hash::group_hash_axioms;

        let shown_at: i64 = at.shown_at;
        let (rows, cols) = self.session_size();
        match (at.stage, event) {
            (ConnectStage::Secret, ConnectEvent::SecretResolved { note, present }) => {
                self.forget_ssh_log(entry.name().as_str());
                let level = if present {
                    LogLevel::Success
                } else {
                    LogLevel::Info
                };
                self.push_ssh_log(
                    SshLogEntry {
                        host_name: entry.name().clone(),
                        line: note,
                        level,
                        timestamp: now,
                    },
                );
                if argv.len() > 0 {
                    (
                        Connection { stage: ConnectStage::Program, shown_at },
                        ConnectAction::CheckProgram,
                    )
                } else {
                    let _ = self.check_command(entry.name().as_str(), argv, true, now);
                    (
                        Connection { stage: ConnectStage::Spawn, shown_at: now },
                        ConnectAction::Spawn { rows, cols },
                    )
                }
            },
            (ConnectStage::Program, ConnectEvent::ProgramChecked { found }) => {
                if self.check_command(entry.name().as_str(), argv, found, now) {
                    (
                        Connection { stage: ConnectStage::Spawn, shown_at: now },
                        ConnectAction::Spawn { rows, cols },
                    )
                } else {
                    (Connection { stage: ConnectStage::Done, shown_at }, ConnectAction::Finish)
                }
            },
            (ConnectStage::Spawn, ConnectEvent::Spawned) => {
                if effective_enabled(self.logging_enabled, entry.session_logging_override()) {
                    (Connection { stage: ConnectStage::Log, shown_at }, ConnectAction::OpenLog)
                } else {
                    let action = self.take_up(entry, None);
                    (Connection { stage: ConnectStage::Note, shown_at }, action)
                }
            },
            (ConnectStage::Spawn, ConnectEvent::SpawnFailed { detail }) => {
                let text = self.note_spawn_failure(
                    entry.name().as_str(),
                    detail.as_str(),
                    shown_at,
                );
                (
                    Connection { stage: ConnectStage::Done, shown_at },
                    ConnectAction::NoteFailure(login_event(entry, false, text, None)),
                )
            },
            (ConnectStage::Log, ConnectEvent::LogOpened { dir }) => {
                let action = self.take_up(entry, Some(dir));
                (Connection { stage: ConnectStage::Note, shown_at }, action)
            },
            (ConnectStage::Log, ConnectEvent::LogFailed { detail }) => {
                let mut text = "Session logging unavailable: ".to_owned();
                text.push_str(detail.as_str());
                self.host_notice = Some(text);
                let action = self.take_up(entry, None);
                (Connection { stage: ConnectStage::Note, shown_at }, action)
            },
            (ConnectStage::Note, ConnectEvent::Noted) => {
                (
                    Connection { stage: ConnectStage::Store, shown_at },
                    ConnectAction::StoreTime { row: entry.managed_id() },
                )
            },
            (ConnectStage::Store, ConnectEvent::Stored { timestamp }) => {
                record_connected(&mut self.hosts, entry, timestamp);
                (Connection { stage: ConnectStage::Refresh, shown_at }, ConnectAction::Refresh)
            },
            (ConnectStage::Store, ConnectEvent::StoreFailed) => {
                (Connection { stage: ConnectStage::Done, shown_at }, ConnectAction::Finish)
            },
            (ConnectStage::Refresh, ConnectEvent::Refreshed) => {
                match self.host_to_detect(entry) {
                    Some(id) => (
                        Connection { stage: ConnectStage::Detect, shown_at },
                        ConnectAction::Detect { host_id: id },
                    ),
                    None => (
                        Connection { stage: ConnectStage::Done, shown_at },
                        ConnectAction::Finish,
                    ),
                }
            },
            (ConnectStage::Detect, ConnectEvent::DetectOrdered { accepted }) => {
                if accepted {
                    if let Some(id) = entry.managed_id() {
                        let _ = self.os_detect_inflight.insert(id);
                    }
                }
                (Connection { stage: ConnectStage::Done, shown_at }, ConnectAction::Finish)
            },
            _ => (at, ConnectAction::Unexpected),
        }
    }
}

/// The operating system that was found on a host.
#[derive(Debug)]
pub struct OsDetected {
    pub host_id: i64,
    pub os: String,
}

impl OsDetected {
    /// The change to the host's row: its operating system, and nothing else.
    pub fn update(&self) -> (r: HostUpdate)
        ensures
            r == (HostUpdate { os_icon: Some(Some(self.os)), ..HostUpdate::nothing() }),
    {
        let mut update = HostUpdate::default();
        update.os_icon = Some(Some(self.os.clone()));
        update
    }
}

impl App {
    /// Take in what was found on a host, once its row was changed or could not be. A
    /// change that failed leaves the host marked as being looked at; one that was
    /// made lets it go, and the hosts are to be loaded anew.
    pub fn apply_os_detect(&mut self, found: &OsDetected, stored: Result<(), String>) -> (r: Result<
        (),
        String,
    >)
        ensures
            r == stored,
            stored is Ok ==> final(self)@ == (AppView {
                os_detect_inflight: old(self)@.os_detect_inflight.remove(found.host_id),
                ..old(self)@
            }),
            stored is Err ==> final(self)@ == old(self)@,
    {
        broadcast use vstd::std_specs::hash::group_hash_axioms;

        match stored {
            Ok(done) => {
                let _ = self.os_detect_inflight.remove(&found.host_id);
                Ok(done)
            },
            Err(e) => Err(e),
        }
    }
}

/// A host that is being looked at is not looked at a second time.
pub proof fn law_detect_once(
    before: AppView,
    entry: HostEntry,
    argv: Seq<Seq<char>>,
    at: Connection,
    event: ConnectEvent,
    now: i64,
    after: AppView,
    then: Connection,
    action: ConnectAction,
)
    requires
        connect_stepped(before, entry, argv, at, event, now, after, then, action),
        action is Detect,
    ensures
        entry.row() == Some(action->host_id),
        !before.os_detect_inflight.contains(action->host_id),
{
}

/// Whatever comes of the outside work, a connection that was given up opened no
/// session, and one that opened a session opened exactly one.
pub proof fn law_session_opened_once(
    before: AppView,
    entry: HostEntry,
    argv: Seq<Seq<char>>,
    at: Connection,
    event: ConnectEvent,
    now: i64,
    after: AppView,
    then: Connection,
    action: ConnectAction,
)
    requires
        connect_stepped(before, entry, argv, at, event, now, after, then, action),
    ensures
        after.sessions.len() == before.sessions.len() + (if action is Note {
            1int
        } else {
            0int
        }),
        action is NoteFailure ==> then.stage == ConnectStage::Done && after.sessions
            == before.sessions && after.mode == before.mode,
        action is Note ==> then.stage == ConnectStage::Note && after.mode
            == crate::app::AppMode::Connecting && after.active_session is Some,
        action is Note && before.sessions.len() < usize::MAX ==> {
            let i = after.active_session->0 as int;
            &&& 0 <= i < after.sessions.len()
            &&& after.sessions[i].host_name@ == entry.called()
            &&& after.sessions[i].display_name@ == entry.called()
            &&& after.sessions[i].phase == SessionPhase::Connecting
            &&& i >= before.sessions.len()
            &&& (before.fixed.motion_enabled ==> after.session_entering)
        },
        forall|k: int|
            0 <= k < before.sessions.len() ==> #[trigger] after.sessions[k] == before.sessions[k],
        !(action is Note) ==> after.sessions == before.sessions && after.active_session
            == before.active_session && after.mode == before.mode && after.session_entering
            == before.session_entering,
{
}

/// A connection changes nothing that it has no business with: the list of hosts only
/// once the time was stored, the hosts that are being looked at only once that was
/// accepted, the notice only where something went wrong, and what it only reads never.
pub proof fn law_connect_changes_only(
    before: AppView,
    entry: HostEntry,
    argv: Seq<Seq<char>>,
    at: Connection,
    event: ConnectEvent,
    now: i64,
    after: AppView,
    then: Connection,
    action: ConnectAction,
)
    requires
        connect_stepped(before, entry, argv, at, event, now, after, then, action),
    ensures
        after.fixed == before.fixed,
        after.hosts != before.hosts ==> event is Stored,
        !(event is DetectOrdered) ==> after.os_detect_inflight == before.os_detect_inflight,
        event is DetectOrdered && !event->accepted ==> after.os_detect_inflight
            == before.os_detect_inflight,
        forall|id: i64| #[trigger]
            after.os_detect_inflight.contains(id) ==> before.os_detect_inflight.contains(id)
                || entry.row() == Some(id),
        forall|id: i64| #[trigger]
            before.os_detect_inflight.contains(id) ==> after.os_detect_inflight.contains(id),
        after.host_notice != before.host_notice ==> (event is ProgramChecked && !event->found)
            || event is SpawnFailed || event is LogFailed,
        after.ssh_log != before.ssh_log ==> event is SecretResolved || event is ProgramChecked
            || event is SpawnFailed,
{
}

/// What a connection notes of the login: the host by its name, who logs in by which way
/// as the host's row says, that it was launched exactly where a session was opened, and
/// the directory of the transcript exactly where one was opened.
pub proof fn law_login_is_noted(
    before: AppView,
    entry: HostEntry,
    argv: Seq<Seq<char>>,
    at: Connection,
    event: ConnectEvent,
    now: i64,
    after: AppView,
    then: Connection,
    action: ConnectAction,
)
    requires
        connect_stepped(before, entry, argv, at, event, now, after, then, action),
        action is Note || action is NoteFailure,
    ensures
        ({
            let noted = if action is Note {
                action->Note_0
            } else {
                action->NoteFailure_0
            };
            &&& noted.host_name@ == entry.called()
            &&& noted.launched == (action is Note)
            &&& noted.launched == !(event is SpawnFailed)
            &&& (noted.launched ==> noted.detail@ == "session started"@)
            &&& (!noted.launched ==> noted.detail@ == "Session spawn failed: "@
                + event->SpawnFailed_detail@ && after.host_notice == Some(noted.detail@)
                && after.ssh_log.last().line == noted.detail@ && after.ssh_log.last().timestamp
                == at.shown_at)
            &&& (event is LogOpened ==> noted.log_dir is Some && noted.log_dir->0@ == event->dir@)
            &&& (!(event is LogOpened) ==> noted.log_dir is None)
            &&& (event is LogFailed ==> after.host_notice == Some(
                "Session logging unavailable: "@ + event->LogFailed_detail@,
            ))
            &&& match entry {
                HostEntry::Legacy { host, meta } => noted.username is None && noted.via@
                    == "direct"@,
                HostEntry::Managed(m) => {
                    &&& (m.proxy_jump is Some ==> noted.via@ == m.proxy_jump->0@)
                    &&& (m.proxy_jump is None ==> noted.via@ == "direct"@)
                    &&& (m.username is Some ==> noted.username is Some && noted.username->0@
                        == m.username->0@)
                    &&& (m.username is None ==> match m.identity {
                        Some(i) => text_opt(noted.username) == text_opt(i.username),
                        None => noted.username is None,
                    })
                },
            }
        }),
{
}

/// A session is started only where the program was found or there is none to look for,
/// in a terminal as large as the screen and never smaller than three rows of twenty
/// columns. A log is opened exactly where the host asks for one, or leaves it to a
/// setting that does.
pub proof fn law_session_is_started_when_it_can(
    before: AppView,
    entry: HostEntry,
    argv: Seq<Seq<char>>,
    at: Connection,
    event: ConnectEvent,
    now: i64,
    after: AppView,
    then: Connection,
    action: ConnectAction,
)
    requires
        connect_stepped(before, entry, argv, at, event, now, after, then, action),
    ensures
        action is Spawn ==> argv.len() == 0 || (event is ProgramChecked && event->found),
        action is Spawn ==> action->rows >= 3 && action->cols >= 20 && action->rows
            >= before.fixed.terminal_height && action->cols >= before.fixed.terminal_width && (
        action->rows == 3 || action->rows == before.fixed.terminal_height) && (action->cols == 20
            || action->cols == before.fixed.terminal_width),
        at.stage == ConnectStage::Program && event is ProgramChecked && event->found ==> action
            is Spawn && then.shown_at == now,
        at.stage == ConnectStage::Program && event is ProgramChecked && !event->found && argv.len()
            > 0 ==> action is Finish && after.host_notice is Some && after.host_notice
            == Some(after.ssh_log.last().line),
        at.stage == ConnectStage::Secret && event is SecretResolved ==> if argv.len() > 0 {
            action is CheckProgram && after.ssh_log.last().line == event->note@ && (
            after.ssh_log.last().level == LogLevel::Success <==> event->present) && (
            after.ssh_log.last().level == LogLevel::Info <==> !event->present)
                && after.ssh_log.last().host_name == entry.called()
                && after.ssh_log.last().timestamp == now
        } else {
            action is Spawn
        },
        at.stage == ConnectStage::Spawn && event is Spawned ==> match entry.logging() {
            SessionLoggingOverride::On => action is OpenLog,
            SessionLoggingOverride::Off => action is Note,
            SessionLoggingOverride::Inherit => if before.fixed.logging_enabled {
                action is OpenLog
            } else {
                action is Note
            },
        },
        at.stage == ConnectStage::Spawn && event is SpawnFailed ==> action is NoteFailure,
        at.stage == ConnectStage::Log && (event is LogOpened || event is LogFailed) ==> action
            is Note,
{
}

/// What follows a session that was opened: the login is noted, the time is stored in the
/// host's row, the shown logins are refreshed, and the operating system of a host whose
/// row names none is looked for, unless that is being done or cannot be.
pub proof fn law_connection_is_completed(
    before: AppView,
    entry: HostEntry,
    argv: Seq<Seq<char>>,
    at: Connection,
    event: ConnectEvent,
    now: i64,
    after: AppView,
    then: Connection,
    action: ConnectAction,
)
    requires
        connect_stepped(before, entry, argv, at, event, now, after, then, action),
    ensures
        at.stage == ConnectStage::Note && event is Noted ==> action == (ConnectAction::StoreTime {
            row: match entry {
                HostEntry::Managed(m) => Some(m.id),
                HostEntry::Legacy { host, meta } => None,
            },
        }) && then.stage == ConnectStage::Store,
        at.stage == ConnectStage::Store && event is Stored ==> action is Refresh && then.stage
            == ConnectStage::Refresh && after.hosts.len() == before.hosts.len() && forall|i: int|
            0 <= i < before.hosts.len() && first_found(before.hosts, entry, i) && (entry
                is Managed || before.hosts[i] is Legacy) ==> last_seen(#[trigger] after.hosts[i])
                == Some(event->timestamp),
        at.stage == ConnectStage::Store && event is StoreFailed ==> action is Finish,
        at.stage == ConnectStage::Refresh && event is Refreshed ==> match entry {
            HostEntry::Legacy { host, meta } => action is Finish,
            HostEntry::Managed(m) => {
                let named = m.os_icon is Some && m.os_icon->0@.len() > 0;
                let wanted = !named && before.fixed.os_detector
                    && !before.os_detect_inflight.contains(m.id);
                &&& (wanted ==> action == (ConnectAction::Detect { host_id: m.id }))
                &&& (!wanted ==> action is Finish)
            },
        },
        at.stage == ConnectStage::Detect && event is DetectOrdered && event->accepted && entry
            is Managed ==> after.os_detect_inflight.contains(entry->Managed_0.id),
        at.stage == ConnectStage::Detect && event is DetectOrdered ==> action is Finish,
{
    if at.stage == ConnectStage::Store && event is Stored {
        law_connected_host_is_stamped(before.hosts, entry, event->timestamp);
    }
}

/// A step never goes back: a connection ends after at most eight reports that fit.
pub open spec fn stages_left(stage: ConnectStage) -> nat {
    match stage {
        ConnectStage::Secret => 8,
        ConnectStage::Program => 7,
        ConnectStage::Spawn => 6,
        ConnectStage::Log => 5,
        ConnectStage::Note => 4,
        ConnectStage::Store => 3,
        ConnectStage::Refresh => 2,
        ConnectStage::Detect => 1,
        ConnectStage::Done => 0,
    }
}

/// Every report that fits brings a connection nearer to its end.
pub proof fn law_connect_ends(
    before: AppView,
    entry: HostEntry,
    argv: Seq<Seq<char>>,
    at: Connection,
    event: ConnectEvent,
    now: i64,
    after: AppView,
    then: Connection,
    action: ConnectAction,
)
    requires
        connect_stepped(before, entry, argv, at, event, now, after, then, action),
    ensures
        action is Unexpected ==> then == at && after == before,
        !(action is Unexpected) ==> stages_left(then.stage) < stages_left(at.stage),
        action is Finish ==> then.stage == ConnectStage::Done,
{
}

/// The first step of a connection drops every older line about the host: of the
/// lines after it, only the new ones at the end are about it.
pub proof fn law_log_starts_anew(
    before: AppView,
    entry: HostEntry,
    argv: Seq<Seq<char>>,
    at: Connection,
    event: ConnectEvent,
    now: i64,
    after: AppView,
    then: Connection,
    action: ConnectAction,
    i: int,
)
    requires
        connect_stepped(before, entry, argv, at, event, now, after, then, action),
        at.stage == ConnectStage::Secret,
        !(action is Unexpected),
        0 <= i < after.ssh_log.len() - (if argv.len() > 0 {
            1int
        } else {
            2int
        }),
    ensures
        after.ssh_log[i].host_name != entry.called(),
        before.ssh_log.contains(after.ssh_log[i]),
{
    lemma_lines_of_others(before.ssh_log, entry.called(), i);
}

/// The first step of a connection keeps every line about another host, in its order.
pub proof fn law_log_keeps_other_hosts(
    before: AppView,
    entry: HostEntry,
    argv: Seq<Seq<char>>,
    at: Connection,
    event: ConnectEvent,
    now: i64,
    after: AppView,
    then: Connection,
    action: ConnectAction,
)
    requires
        connect_stepped(before, entry, argv, at, event, now, after, then, action),
        at.stage == ConnectStage::Secret,
        !(action is Unexpected),
    ensures
        ({
            let others = before.ssh_log.filter(|l: crate::app::LogLine| l.host_name
                != entry.called());
            &&& after.ssh_log.len() == others.len() + (if argv.len() > 0 {
                1int
            } else {
                2int
            })
            &&& after.ssh_log.take(others.len() as int) == others
        }),
{
    crate::app::law_other_hosts_keep_their_lines(before.ssh_log, entry.called());
    let others = before.ssh_log.filter(|l: crate::app::LogLine| l.host_name != entry.called());
    assert(after.ssh_log.take(others.len() as int) =~= others);
}

proof fn lemma_lines_of_others(log: Seq<crate::app::LogLine>, name: Seq<char>, i: int)
    requires
        0 <= i < lines_of_others(log, name).len(),
    ensures
        lines_of_others(log, name)[i].host_name != name,
        log.contains(lines_of_others(log, name)[i]),
    decreases log.len(),
{
    if log.len() > 0 {
        let kept = lines_of_others(log.drop_last(), name);
        if i < kept.len() {
            lemma_lines_of_others(log.drop_last(), name, i);
            let k = choose|k: int|
                0 <= k < log.drop_last().len() && log.drop_last()[k] == kept[i];
            assert(log[k] == kept[i]);
        } else {
            assert(log[log.len() - 1] == lines_of_others(log, name)[i]);
        }
    }
}

/// A connection shows the time at which its command was checked: it is taken when the
/// connection comes to its session, and kept from there on.
pub proof fn law_connection_keeps_its_time(
    before: AppView,
    entry: HostEntry,
    argv: Seq<Seq<char>>,
    at: Connection,
    event: ConnectEvent,
    now: i64,
    after: AppView,
    then: Connection,
    action: ConnectAction,
)
    requires
        connect_stepped(before, entry, argv, at, event, now, after, then, action),
    ensures
        at.stage != ConnectStage::Spawn && then.stage == ConnectStage::Spawn ==> then.shown_at
            == now,
        at.stage == ConnectStage::Spawn || then.stage != ConnectStage::Spawn ==> then.shown_at
            == at.shown_at,
{
}

} // verus!
