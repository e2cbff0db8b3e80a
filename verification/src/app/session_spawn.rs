//! Sessions that belong to no host of the list: a destination typed in by hand, or
//! a shell on this machine. They keep no transcript.

use vstd::prelude::*;

use crate::app::{
    after_command_check, after_spawn_failure, spawn_failure_text, App, AppView, Session,
    SessionPhase,
};
use crate::cli::connect::AuthEvent;
use crate::text::texts;

verus! {

/// What came of the outside work.
#[derive(Debug)]
pub enum SpawnEvent {
    /// The program was looked for.
    ProgramChecked { found: bool },
    /// The session was started.
    Spawned,
    /// The session could not be started.
    SpawnFailed { detail: String },
}

/// The outside work that comes next.
#[derive(Debug)]
pub enum SpawnAction {
    /// Start the session in a terminal of this size.
    Spawn { rows: u16, cols: u16 },
    /// Note the login, or that it failed; nothing comes after that.
    Note(AuthEvent),
    /// Nothing is left to do.
    Finish,
}

/// A line in the log of logins about a session without a host.
pub open spec fn is_plain_login(
    event: AuthEvent,
    host_name: Seq<char>,
    launched: bool,
    detail: Seq<char>,
) -> bool {
    &&& event.host_name@ == host_name
    &&& event.username is None
    &&& event.via@ == "direct"@
    &&& event.launched == launched
    &&& event.detail@ == detail
    &&& event.log_dir is None
}

/// Whether a step of starting such a session is the right one.
pub open spec fn spawn_stepped(
    before: AppView,
    argv: Seq<Seq<char>>,
    display_name: Seq<char>,
    host_name: Seq<char>,
    event: SpawnEvent,
    now: i64,
    after: AppView,
    action: SpawnAction,
) -> bool {
    let (rows, cols) = before.session_size();
    match event {
        SpawnEvent::ProgramChecked { found } => {
            &&& after == after_command_check(before, host_name, argv, found, now)
            &&& if argv.len() > 0 && !found {
                action is Finish
            } else {
                action == (SpawnAction::Spawn { rows, cols })
            }
        },
        SpawnEvent::Spawned => {
            &&& exists|session: Session|
                {
                    &&& session.display_name@ == display_name
                    &&& session.host_name@ == host_name
                    &&& session.phase == SessionPhase::Connecting
                    &&& after == #[trigger] before.with_session(session, false)
                }
            &&& action matches SpawnAction::Note(noted) && is_plain_login(
                noted,
                host_name,
                true,
                "session started"@,
            )
        },
        SpawnEvent::SpawnFailed { detail } => {
            &&& after == after_spawn_failure(before, host_name, detail@, now)
            &&& action matches SpawnAction::Note(noted) && is_plain_login(
                noted,
                host_name,
                false,
                spawn_failure_text(detail@),
            )
        },
    }
}

fn plain_login(host_name: &str, launched: bool, detail: String) -> (r: AuthEvent)
    ensures
        is_plain_login(r, host_name@, launched, detail@),
{
    AuthEvent {
        host_name: host_name.to_owned(),
        username: None,
        via: "direct".to_owned(),
        launched,
        detail,
        log_dir: None,
    }
}

impl App {
    /// Go on with starting a session that belongs to no host of the list, and say
    /// what comes next. The view does not slide in.
    pub fn spawn_embedded_session(
        &mut self,
        argv: &Vec<String>,
        display_name: &str,
        log_host_name: &str,
        event: SpawnEvent,
        now: i64,
    ) -> (r: SpawnAction)
        ensures
            spawn_stepped(
                old(self)@,
                texts(argv@),
                display_name@,
                log_host_name@,
                event,
                now,
                final(self)@,
                r,
            ),
    {
        match event {
            SpawnEvent::ProgramChecked { found } => {
                let (rows, cols) = self.session_size();
                if self.check_command(log_host_name, argv, found, now) {
                    SpawnAction::Spawn { rows, cols }
                } else {
                    SpawnAction::Finish
                }
            },
            SpawnEvent::Spawned => {
                let session = Session {
                    display_name: display_name.to_owned(),
                    host_name: log_host_name.to_owned(),
                    phase: SessionPhase::Connecting,
                };
                let ghost opened = session;
                let ghost before = self@;
                self.open_session(session, false);
                assert(self@ == before.with_session(opened, false));
                SpawnAction::Note(plain_login(log_host_name, true, "session started".to_owned()))
            },
            SpawnEvent::SpawnFailed { detail } => {
                let text = self.note_spawn_failure(log_host_name, detail.as_str(), now);
                SpawnAction::Note(plain_login(log_host_name, false, text))
            },
        }
    }
}

/// A session without a host takes the screen under its own name once it was started, and
/// only then; the program is checked first, and what went wrong is logged, shown in the
/// notice and noted as a failed login.
pub proof fn law_plain_session_takes_the_screen(
    before: AppView,
    argv: Seq<Seq<char>>,
    display_name: Seq<char>,
    host_name: Seq<char>,
    event: SpawnEvent,
    now: i64,
    after: AppView,
    action: SpawnAction,
)
    requires
        before.sessions.len() < usize::MAX,
        spawn_stepped(before, argv, display_name, host_name, event, now, after, action),
    ensures
        after.fixed == before.fixed && after.hosts == before.hosts && after.os_detect_inflight
            == before.os_detect_inflight && after.session_entering == before.session_entering,
        forall|k: int|
            0 <= k < before.sessions.len() ==> #[trigger] after.sessions[k] == before.sessions[k],
        event is Spawned ==> {
            let i = after.active_session->0 as int;
            &&& after.active_session is Some
            &&& before.sessions.len() <= i < after.sessions.len()
            &&& after.sessions.len() == before.sessions.len() + 1
            &&& after.sessions[i].display_name@ == display_name
            &&& after.sessions[i].host_name@ == host_name
            &&& after.sessions[i].phase == SessionPhase::Connecting
            &&& after.mode == crate::app::AppMode::Connecting
            &&& after.ssh_log == before.ssh_log && after.host_notice == before.host_notice
            &&& action is Note
        },
        !(event is Spawned) ==> after.sessions == before.sessions && after.active_session
            == before.active_session && after.mode == before.mode,
        event is ProgramChecked ==> {
            let missing = argv.len() > 0 && !event->found;
            &&& (missing ==> action is Finish && after.host_notice == Some(
                "Command not found: '"@ + argv[0] + "'. Check your PATH or install it."@,
            ))
            &&& (!missing ==> action is Spawn && action->rows >= 3 && action->rows
                >= before.fixed.terminal_height && action->cols >= 20 && action->cols
                >= before.fixed.terminal_width && (action->rows == 3 || action->rows
                == before.fixed.terminal_height) && (action->cols == 20 || action->cols
                == before.fixed.terminal_width) && after.host_notice == before.host_notice)
        },
        !(event is Spawned) ==> after.ssh_log.len() == before.ssh_log.len() + 1
            && after.ssh_log.last().host_name == host_name && after.ssh_log.last().timestamp
            == now,
        event is SpawnFailed ==> action is Note && after.host_notice == Some(
            "Session spawn failed: "@ + event->detail@,
        ),
        action is Note ==> {
            let noted = action->Note_0;
            &&& noted.host_name@ == host_name && noted.username is None
            &&& noted.via@ == "direct"@ && noted.log_dir is None
            &&& noted.launched == (event is Spawned)
            &&& (noted.launched ==> noted.detail@ == "session started"@)
            &&& (!noted.launched ==> Some(noted.detail@) == after.host_notice && noted.detail@
                == after.ssh_log.last().line)
        },
{
}

} // verus!
