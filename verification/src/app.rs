//! The state of the interactive program, as far as connecting to hosts changes it.

use std::collections::HashSet;
use vstd::prelude::*;

use crate::model::HostEntry;
use crate::text::{text_opt, texts};

pub mod connect;
pub mod session_spawn;

verus! {

/// What the screen is showing, and what keys mean.
#[derive(Debug, Clone, Copy, PartialEq, Eq, Structural)]
pub enum AppMode {
    Normal,
    Palette,
    HostForm,
    FieldPicker,
    IdentityForm,
    KeygenForm,
    GroupManage,
    GroupForm,
    GroupFieldPicker,
    TagFilter,
    TunnelForm,
    TunnelHostPicker,
    SessionPicker,
    PushKeyHostPicker,
    PushKeyIdentityPicker,
    ConfirmDiscard,
    ConfirmDelete,
    Help,
    KeybindEditor,
    Settings,
    TunnelReconnectSettings,
    ConfirmQuit,
    ImportPrompt,
    SftpPrompt,
    BroadcastPickTarget,
    BroadcastCommand,
    BroadcastPreview,
    Notice,
    /// A session that is not up yet takes the whole screen.
    Connecting,
    /// A session takes the whole screen.
    Session,
}

/// Whether a session takes the whole screen.
pub open spec fn session_fills(mode: AppMode) -> bool {
    mode == AppMode::Connecting || mode == AppMode::Session
}

/// Whether a session takes the whole screen.
pub fn is_session_mode(mode: AppMode) -> (r: bool)
    ensures
        r == session_fills(mode),
{
    mode == AppMode::Connecting || mode == AppMode::Session
}

/// How serious a line of the connection log is.
#[derive(Debug, Clone, Copy, PartialEq, Eq, Structural)]
pub enum LogLevel {
    Info,
    Success,
    Error,
}

/// A line of the connection log.
#[derive(Debug)]
pub struct SshLogEntry {
    pub host_name: String,
    pub line: String,
    pub level: LogLevel,
    pub timestamp: i64,
}

/// A line of the connection log, as text.
pub ghost struct LogLine {
    pub host_name: Seq<char>,
    pub line: Seq<char>,
    pub level: LogLevel,
    pub timestamp: i64,
}

impl View for SshLogEntry {
    type V = LogLine;

    open spec fn view(&self) -> LogLine {
        LogLine {
            host_name: self.host_name@,
            line: self.line@,
            level: self.level,
            timestamp: self.timestamp,
        }
    }
}

/// How far a session has come.
#[derive(Debug, Clone, Copy, PartialEq, Eq, Structural)]
pub enum SessionPhase {
    Connecting,
    Running,
    Exited,
}

/// An open session, as far as the rest of the program sees it.
#[derive(Debug)]
pub struct Session {
    pub display_name: String,
    pub host_name: String,
    pub phase: SessionPhase,
}

/// The state that connecting reads and changes.
#[derive(Debug)]
pub struct App {
    pub hosts: Vec<HostEntry>,
    /// The hosts that the current filter shows, by their place in `hosts`.
    pub filtered_indices: Vec<usize>,
    /// The selected one of the shown hosts.
    pub selected: usize,
    pub ssh_log: Vec<SshLogEntry>,
    pub host_notice: Option<String>,
    pub sessions: Vec<Session>,
    pub active_session: Option<usize>,
    pub mode: AppMode,
    /// The session view is sliding in.
    pub session_entering: bool,
    /// Surfaces move rather than jump.
    pub motion_enabled: bool,
    /// Sessions are logged unless their host says otherwise.
    pub logging_enabled: bool,
    pub terminal_height: u16,
    pub terminal_width: u16,
    /// Something looks for the operating system of hosts in the background.
    pub os_detector: bool,
    /// The hosts whose operating system is being looked for.
    pub os_detect_inflight: HashSet<i64>,
}

/// The state that connecting changes, as texts and sequences.
pub ghost struct AppView {
    pub hosts: Seq<HostEntry>,
    pub ssh_log: Seq<LogLine>,
    pub host_notice: Option<Seq<char>>,
    pub sessions: Seq<Session>,
    pub active_session: Option<usize>,
    pub mode: AppMode,
    pub session_entering: bool,
    pub os_detect_inflight: Set<i64>,
    /// What connecting only reads.
    pub fixed: AppSettings,
}

/// The state that connecting only reads.
pub ghost struct AppSettings {
    pub filtered_indices: Seq<usize>,
    pub selected: usize,
    pub motion_enabled: bool,
    pub logging_enabled: bool,
    pub terminal_height: u16,
    pub terminal_width: u16,
    pub os_detector: bool,
}

/// The lines of a log.
pub open spec fn log_lines(log: Seq<SshLogEntry>) -> Seq<LogLine> {
    log.map_values(|e: SshLogEntry| e@)
}

impl View for App {
    type V = AppView;

    open spec fn view(&self) -> AppView {
        AppView {
            hosts: self.hosts@,
            ssh_log: log_lines(self.ssh_log@),
            host_notice: text_opt(self.host_notice),
            sessions: self.sessions@,
            active_session: self.active_session,
            mode: self.mode,
            session_entering: self.session_entering,
            os_detect_inflight: self.os_detect_inflight@,
            fixed: AppSettings {
                filtered_indices: self.filtered_indices@,
                selected: self.selected,
                motion_enabled: self.motion_enabled,
                logging_enabled: self.logging_enabled,
                terminal_height: self.terminal_height,
                terminal_width: self.terminal_width,
                os_detector: self.os_detector,
            },
        }
    }
}

/// The lines of a log that are not about a host.
pub open spec fn lines_of_others(log: Seq<LogLine>, host_name: Seq<char>) -> Seq<LogLine>
    decreases log.len(),
{
    if log.len() == 0 {
        Seq::empty()
    } else if log.last().host_name == host_name {
        lines_of_others(log.drop_last(), host_name)
    } else {
        lines_of_others(log.drop_last(), host_name).push(log.last())
    }
}

impl AppView {
    /// The state with one more line in the log.
    pub open spec fn logged(
        self,
        host_name: Seq<char>,
        line: Seq<char>,
        level: LogLevel,
        timestamp: i64,
    ) -> AppView {
        AppView {
            ssh_log: self.ssh_log.push(LogLine { host_name, line, level, timestamp }),
            ..self
        }
    }

    /// The state with a notice.
    pub open spec fn noticed(self, text: Seq<char>) -> AppView {
        AppView { host_notice: Some(text), ..self }
    }

    /// The size of a new session's terminal: that of the screen, but never less than
    /// three rows of twenty columns.
    pub open spec fn session_size(self) -> (u16, u16) {
        (
            if self.fixed.terminal_height < 3 {
                3
            } else {
                self.fixed.terminal_height
            },
            if self.fixed.terminal_width < 20 {
                20
            } else {
                self.fixed.terminal_width
            },
        )
    }

    /// The state with a new session, which takes the screen.
    pub open spec fn with_session(self, session: Session, slide: bool) -> AppView {
        AppView {
            sessions: self.sessions.push(session),
            active_session: Some(self.sessions.len() as usize),
            mode: AppMode::Connecting,
            session_entering: self.session_entering || (slide && self.fixed.motion_enabled),
            ..self
        }
    }

    /// The selected host's place among all hosts.
    pub open spec fn selection(self) -> Option<int> {
        if self.fixed.selected < self.fixed.filtered_indices.len()
            && self.fixed.filtered_indices[self.fixed.selected as int] < self.hosts.len() {
            Some(self.fixed.filtered_indices[self.fixed.selected as int] as int)
        } else {
            None
        }
    }
}

impl App {
    /// Add a line to the connection log.
    pub fn push_ssh_log(&mut self, entry: SshLogEntry)
        ensures
            final(self)@ == old(self)@.logged(
                entry.host_name@,
                entry.line@,
                entry.level,
                entry.timestamp,
            ),
    {
        let ghost before = log_lines(self.ssh_log@);
        let ghost line = entry@;
        self.ssh_log.push(entry);
        assert(log_lines(self.ssh_log@) =~= before.push(line));
    }

    /// Drop the lines about a host from the connection log.
    pub fn forget_ssh_log(&mut self, host_name: &str)
        ensures
            final(self)@ == (AppView {
                ssh_log: lines_of_others(old(self)@.ssh_log, host_name@),
                ..old(self)@
            }),
    {
        let ghost all = log_lines(self.ssh_log@);
        let mut kept: Vec<SshLogEntry> = Vec::new();
        let mut rest: Vec<SshLogEntry> = Vec::new();
        rest.append(&mut self.ssh_log);
        let ghost entries = rest@;
        let mut n: usize = 0;
        let total: usize = rest.len();
        assert(log_lines(kept@) =~= lines_of_others(all.take(0), host_name@));
        assert(rest@ =~= entries.skip(0));
        while n < total
            invariant
                n <= total == entries.len(),
                rest@ == entries.skip(n as int),
                all == log_lines(entries),
                log_lines(kept@) == lines_of_others(all.take(n as int), host_name@),
            decreases total - n,
        {
            let entry = rest.remove(0);
            let ghost line = entry@;
            let ghost before = log_lines(kept@);
            proof {
                assert(entry == entries[n as int]);
                assert(all.take(n + 1).drop_last() =~= all.take(n as int));
                assert(all.take(n + 1).last() == line);
                assert(rest@ =~= entries.skip(n + 1));
            }
            if !str::eq(entry.host_name.as_str(), host_name) {
                kept.push(entry);
                assert(log_lines(kept@) =~= before.push(line));
            }
            n = n + 1;
        }
        assert(all.take(n as int) =~= all);
        self.ssh_log = kept;
    }

    /// The size of a new session's terminal.
    pub fn session_size(&self) -> (r: (u16, u16))
        ensures
            r == self@.session_size(),
            r.0 >= 3 && r.0 >= self.terminal_height && r.1 >= 20 && r.1 >= self.terminal_width,
            r.0 == 3 || r.0 == self.terminal_height,
            r.1 == 20 || r.1 == self.terminal_width,
    {
        let rows: u16 = if self.terminal_height < 3 {
            3
        } else {
            self.terminal_height
        };
        let cols: u16 = if self.terminal_width < 20 {
            20
        } else {
            self.terminal_width
        };
        (rows, cols)
    }

    /// Add a session and let it take the screen.
    pub fn open_session(&mut self, session: Session, slide: bool)
        ensures
            final(self)@ == old(self)@.with_session(session, slide),
            final(self)@.sessions == old(self)@.sessions.push(session),
            final(self)@.active_session == Some(old(self)@.sessions.len() as usize),
    {
        let place: usize = self.sessions.len();
        self.sessions.push(session);
        self.active_session = Some(place);
        self.mode = AppMode::Connecting;
        if slide && self.motion_enabled {
            self.session_entering = true;
        }
    }

    /// The selected host's place among all hosts.
    pub fn selected_entry(&self) -> (r: Option<usize>)
        ensures
            r is Some <==> self@.selection() is Some,
            r is Some ==> r->0 == self@.selection()->0 && r->0 < self.hosts@.len(),
    {
        if self.selected < self.filtered_indices.len() {
            let i: usize = self.filtered_indices[self.selected];
            if i < self.hosts.len() {
                return Some(i);
            }
        }
        None
    }
}

/// What is said of a program that is not there.
pub open spec fn missing_command_text(program: Seq<char>) -> Seq<char> {
    "Command not found: '"@ + program + "'. Check your PATH or install it."@
}

/// The line that shows the command of a session.
pub open spec fn command_line_text(argv: Seq<Seq<char>>) -> Seq<char> {
    "$ "@ + crate::text::joined(argv, " "@)
}

/// What is said of a session that could not be started.
pub open spec fn spawn_failure_text(detail: Seq<char>) -> Seq<char> {
    "Session spawn failed: "@ + detail
}

/// The line that is logged about a program says whether it is there, and names it; what
/// is said of one that is missing is said in the notice too.
pub proof fn law_program_check_is_logged(
    app: AppView,
    host_name: Seq<char>,
    argv: Seq<Seq<char>>,
    found: bool,
    now: i64,
)
    ensures
        ({
            let after = after_command_check(app, host_name, argv, found, now);
            let line = after.ssh_log.last();
            let missing = argv.len() > 0 && !found;
            &&& after.ssh_log.len() == app.ssh_log.len() + 1
            &&& after.ssh_log.drop_last() == app.ssh_log
            &&& line.host_name == host_name && line.timestamp == now
            &&& (line.level == LogLevel::Error <==> missing)
            &&& (line.level == LogLevel::Success <==> !missing)
            &&& (missing ==> after.host_notice == Some(line.line) && line.line
                == "Command not found: '"@ + argv[0] + "'. Check your PATH or install it."@)
            &&& (!missing ==> after.host_notice == app.host_notice && line.line == "$ "@
                + crate::text::joined(argv, " "@))
            &&& after.sessions == app.sessions && after.active_session == app.active_session
            &&& after.mode == app.mode && after.hosts == app.hosts && after.fixed == app.fixed
            &&& after.session_entering == app.session_entering
            &&& after.os_detect_inflight == app.os_detect_inflight
        }),
{
    let after = after_command_check(app, host_name, argv, found, now);
    assert(after.ssh_log.drop_last() =~= app.ssh_log);
}

/// A session that could not be started leaves a line with the reason, and a notice that
/// says the same; nothing else changes.
pub proof fn law_spawn_failure_is_logged(
    app: AppView,
    host_name: Seq<char>,
    detail: Seq<char>,
    now: i64,
)
    ensures
        ({
            let after = after_spawn_failure(app, host_name, detail, now);
            let line = after.ssh_log.last();
            &&& after.ssh_log == app.ssh_log.push(line)
            &&& line.host_name == host_name && line.timestamp == now
            &&& line.level == LogLevel::Error
            &&& line.line == "Session spawn failed: "@ + detail
            &&& after.host_notice == Some(line.line)
            &&& after.sessions == app.sessions && after.active_session == app.active_session
            &&& after.mode == app.mode && after.hosts == app.hosts && after.fixed == app.fixed
            &&& after.session_entering == app.session_entering
            &&& after.os_detect_inflight == app.os_detect_inflight
        }),
{
}

/// A new session takes the screen: it is the last one and the active one, every earlier
/// session keeps its place, and the view moves only where it is asked to and surfaces
/// move at all.
pub proof fn law_new_session_takes_the_screen(app: AppView, session: Session, slide: bool)
    requires
        app.sessions.len() < usize::MAX,
    ensures
        ({
            let after = app.with_session(session, slide);
            &&& after.active_session is Some
            &&& after.active_session->0 < after.sessions.len()
            &&& after.sessions[after.active_session->0 as int] == session
            &&& after.sessions.len() == app.sessions.len() + 1
            &&& forall|i: int|
                0 <= i < app.sessions.len() ==> i != after.active_session->0
                    && #[trigger] after.sessions[i] == app.sessions[i]
            &&& after.mode == AppMode::Connecting
            &&& (after.session_entering && !app.session_entering ==> slide
                && app.fixed.motion_enabled)
            &&& (slide && app.fixed.motion_enabled ==> after.session_entering)
            &&& (app.session_entering ==> after.session_entering)
            &&& after.hosts == app.hosts && after.ssh_log == app.ssh_log
            &&& after.host_notice == app.host_notice && after.fixed == app.fixed
            &&& after.os_detect_inflight == app.os_detect_inflight
        }),
{
}

/// What the log keeps when the lines about a host are dropped: every line about another
/// host, in its order, and no line about this one.
pub proof fn law_other_hosts_keep_their_lines(log: Seq<LogLine>, host_name: Seq<char>)
    ensures
        lines_of_others(log, host_name) == log.filter(|l: LogLine| l.host_name != host_name),
    decreases log.len(),
{
    reveal(Seq::filter);
    if log.len() > 0 {
        law_other_hosts_keep_their_lines(log.drop_last(), host_name);
    }
}

/// The selected host is the one that the filter shows at the selected place.
pub proof fn law_selection_is_shown(app: AppView)
    ensures
        app.selection() is Some ==> app.fixed.selected < app.fixed.filtered_indices.len()
            && app.selection()->0 == app.fixed.filtered_indices[app.fixed.selected as int]
            && 0 <= app.selection()->0 < app.hosts.len(),
        app.selection() is None ==> app.fixed.selected >= app.fixed.filtered_indices.len()
            || app.fixed.filtered_indices[app.fixed.selected as int] >= app.hosts.len(),
{
}

/// The state after the program of a session was looked for. Where it is missing, the
/// log and a notice say so; where it is there, the log shows the command.
pub open spec fn after_command_check(
    app: AppView,
    host_name: Seq<char>,
    argv: Seq<Seq<char>>,
    found: bool,
    now: i64,
) -> AppView {
    if argv.len() > 0 && !found {
        app.logged(host_name, missing_command_text(argv[0]), LogLevel::Error, now).noticed(
            missing_command_text(argv[0]),
        )
    } else {
        app.logged(host_name, command_line_text(argv), LogLevel::Success, now)
    }
}

/// The state after a session could not be started.
pub open spec fn after_spawn_failure(
    app: AppView,
    host_name: Seq<char>,
    detail: Seq<char>,
    now: i64,
) -> AppView {
    app.logged(host_name, spawn_failure_text(detail), LogLevel::Error, now).noticed(
        spawn_failure_text(detail),
    )
}

impl App {
    /// Note whether the program of a session is there; whether to go on.
    pub fn check_command(&mut self, host_name: &str, argv: &Vec<String>, found: bool, now: i64) -> (r:
        bool)
        ensures
            final(self)@ == after_command_check(
                old(self)@,
                host_name@,
                texts(argv@),
                found,
                now,
            ),
            r == (argv@.len() == 0 || found),
    {
        if argv.len() > 0 && !found {
            let mut text = "Command not found: '".to_owned();
            text.push_str(argv[0].as_str());
            text.push_str("'. Check your PATH or install it.");
            self.push_ssh_log(
                SshLogEntry {
                    host_name: host_name.to_owned(),
                    line: text.clone(),
                    level: LogLevel::Error,
                    timestamp: now,
                },
            );
            self.host_notice = Some(text);
            false
        } else {
            let mut line = "$ ".to_owned();
            line.push_str(crate::text::join_texts(argv, " ").as_str());
            self.push_ssh_log(
                SshLogEntry {
                    host_name: host_name.to_owned(),
                    line,
                    level: LogLevel::Success,
                    timestamp: now,
                },
            );
            true
        }
    }

    /// Note that a session could not be started.
    pub fn note_spawn_failure(&mut self, host_name: &str, detail: &str, now: i64) -> (r: String)
        ensures
            final(self)@ == after_spawn_failure(old(self)@, host_name@, detail@, now),
            r@ == spawn_failure_text(detail@),
    {
        let mut text = "Session spawn failed: ".to_owned();
        text.push_str(detail);
        self.push_ssh_log(
            SshLogEntry {
                host_name: host_name.to_owned(),
                line: text.clone(),
                level: LogLevel::Error,
                timestamp: now,
            },
        );
        self.host_notice = Some(text.clone());
        text
    }
}

/// A session takes the whole screen once it is connecting, and in no mode of the
/// dashboard.
pub proof fn law_modes_that_fill_the_screen(mode: AppMode)
    ensures
        session_fills(mode) <==> mode is Connecting || mode is Session,
        !session_fills(AppMode::Normal),
{
}

/// A new session's terminal is as large as the screen, wherever that has three rows and
/// twenty columns, and in each direction in which it has less it is that large all the
/// same.
pub proof fn law_session_size(v: AppView)
    ensures
        v.session_size().0 >= 3,
        v.session_size().1 >= 20,
        v.fixed.terminal_height >= 3 ==> v.session_size().0 == v.fixed.terminal_height,
        v.fixed.terminal_width >= 20 ==> v.session_size().1 == v.fixed.terminal_width,
        v.fixed.terminal_height < 3 ==> v.session_size().0 == 3,
        v.fixed.terminal_width < 20 ==> v.session_size().1 == 20,
{
}

} // verus!
