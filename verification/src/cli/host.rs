//! The `host` commands: what their arguments ask for, and what is done about it.

use vstd::prelude::*;

use crate::cli::parse::{
    all_taken, asked, asked_all, field, flagged, lemma_flag_is_taken, lemma_option_is_taken,
    lemma_options_are_taken, lemma_others_are_left, lemma_others_are_left_by_all, mark,
    optional_field, parse_session_logging, parse_tags, parse_transport, session_logging_of, spelled,
    tags_of, take_all, take_flag, take_opt, taken, told, transport_of, well_spelled, without_all,
    without_first, Arg,
};
use crate::model::SessionTransport;
use crate::session_log::SessionLoggingOverride;
use crate::text::{parse_port, port_number, text_opt, texts};

verus! {

/// A password that a command is given.
#[derive(Debug)]
pub enum NewPassword {
    /// It is to be read from the standard input.
    Stdin,
    /// It was read.
    Text(String),
}

/// What an edit of a host asks for.
#[derive(Debug)]
pub struct HostEditPatch {
    pub name: String,
    pub set_label: Option<Option<String>>,
    pub set_name: Option<String>,
    pub set_address: Option<String>,
    pub set_port: Option<u16>,
    pub set_username: Option<Option<String>>,
    pub clear_username: bool,
    pub set_tags: Option<Vec<String>>,
    pub set_notes: Option<Option<String>>,
    pub clear_notes: bool,
    pub set_environment: Option<Option<String>>,
    pub clear_environment: bool,
    pub set_proxy_jump: Option<Option<String>>,
    pub clear_proxy_jump: bool,
    pub set_remote_command: Option<Option<String>>,
    pub clear_remote_command: bool,
    pub set_forward_agent: Option<bool>,
    pub set_os_icon: Option<Option<String>>,
    pub clear_os_icon: bool,
    pub set_session_logging: Option<SessionLoggingOverride>,
    pub set_transport: Option<SessionTransport>,
    pub favorite: Option<bool>,
    pub set_identity: Option<String>,
    pub clear_identity: bool,
    pub set_groups: Option<Vec<String>>,
    pub set_has_password: Option<bool>,
    pub password: Option<NewPassword>,
    pub clear_password: bool,
}

/// An edit as its texts say it.
pub ghost struct EditView {
    pub name: Seq<char>,
    pub set_label: Option<Option<Seq<char>>>,
    pub set_name: Option<Seq<char>>,
    pub set_address: Option<Seq<char>>,
    pub set_port: Option<u16>,
    pub set_username: Option<Option<Seq<char>>>,
    pub clear_username: bool,
    pub set_tags: Option<Seq<Seq<char>>>,
    pub set_notes: Option<Option<Seq<char>>>,
    pub clear_notes: bool,
    pub set_environment: Option<Option<Seq<char>>>,
    pub clear_environment: bool,
    pub set_proxy_jump: Option<Option<Seq<char>>>,
    pub clear_proxy_jump: bool,
    pub set_remote_command: Option<Option<Seq<char>>>,
    pub clear_remote_command: bool,
    pub set_forward_agent: Option<bool>,
    pub set_os_icon: Option<Option<Seq<char>>>,
    pub clear_os_icon: bool,
    pub set_session_logging: Option<SessionLoggingOverride>,
    pub set_transport: Option<SessionTransport>,
    pub favorite: Option<bool>,
    pub set_identity: Option<Seq<char>>,
    pub clear_identity: bool,
    pub set_groups: Option<Seq<Seq<char>>>,
    pub set_has_password: Option<bool>,
    /// `Some(None)` is a password that is yet to be read.
    pub password: Option<Option<Seq<char>>>,
    pub clear_password: bool,
}

/// Why the arguments of an edit are refused.
#[derive(Debug, Clone, Copy, PartialEq, Eq, Structural)]
pub enum EditError {
    MissingName,
    InvalidPort,
    InvalidSessionLog,
    InvalidTransport,
    NothingToEdit,
}

/// The text of a field that may be set to nothing.
pub open spec fn text_opt2(o: Option<Option<String>>) -> Option<Option<Seq<char>>> {
    match o {
        Some(inner) => Some(text_opt(inner)),
        None => None,
    }
}

/// The texts of a list that may be left alone.
pub open spec fn texts_opt(o: Option<Vec<String>>) -> Option<Seq<Seq<char>>> {
    match o {
        Some(v) => Some(texts(v@)),
        None => None,
    }
}

/// The text of a password that may be given.
pub open spec fn password_text(o: Option<NewPassword>) -> Option<Option<Seq<char>>> {
    match o {
        Some(NewPassword::Stdin) => Some(None),
        Some(NewPassword::Text(t)) => Some(Some(t@)),
        None => None,
    }
}

/// The field that an option asks for, if it is given.
pub open spec fn field_of(o: Option<Seq<char>>) -> Option<Option<Seq<char>>> {
    match o {
        Some(s) => Some(field(s)),
        None => None,
    }
}

impl View for HostEditPatch {
    type V = EditView;

    open spec fn view(&self) -> EditView {
        EditView {
            name: self.name@,
            set_label: text_opt2(self.set_label),
            set_name: text_opt(self.set_name),
            set_address: text_opt(self.set_address),
            set_port: self.set_port,
            set_username: text_opt2(self.set_username),
            clear_username: self.clear_username,
            set_tags: texts_opt(self.set_tags),
            set_notes: text_opt2(self.set_notes),
            clear_notes: self.clear_notes,
            set_environment: text_opt2(self.set_environment),
            clear_environment: self.clear_environment,
            set_proxy_jump: text_opt2(self.set_proxy_jump),
            clear_proxy_jump: self.clear_proxy_jump,
            set_remote_command: text_opt2(self.set_remote_command),
            clear_remote_command: self.clear_remote_command,
            set_forward_agent: self.set_forward_agent,
            set_os_icon: text_opt2(self.set_os_icon),
            clear_os_icon: self.clear_os_icon,
            set_session_logging: self.set_session_logging,
            set_transport: self.set_transport,
            favorite: self.favorite,
            set_identity: text_opt(self.set_identity),
            clear_identity: self.clear_identity,
            set_groups: texts_opt(self.set_groups),
            set_has_password: self.set_has_password,
            password: password_text(self.password),
            clear_password: self.clear_password,
        }
    }
}

impl EditView {
    /// Whether the edit asks for anything at all.
    pub open spec fn asks_anything(self) -> bool {
        ||| self.changes_connection()
        ||| self.touches_managed()
        ||| self.set_label is Some
        ||| self.set_tags is Some
        ||| self.set_notes is Some
        ||| self.clear_notes
        ||| self.set_environment is Some
        ||| self.clear_environment
        ||| self.set_session_logging is Some
        ||| self.set_transport is Some
        ||| self.favorite is Some
        ||| self.set_identity is Some
        ||| self.clear_identity
        ||| self.set_groups is Some
        ||| self.password is Some
        ||| self.clear_password
    }

    /// Whether the edit changes how the host is reached.
    pub open spec fn changes_connection(self) -> bool {
        ||| self.set_name is Some
        ||| self.set_address is Some
        ||| self.set_port is Some
        ||| self.set_proxy_jump is Some
        ||| self.clear_proxy_jump
        ||| self.set_forward_agent is Some
        ||| self.set_remote_command is Some
        ||| self.clear_remote_command
    }

    /// Whether the edit touches fields that only a host with a row of its own has,
    /// though they are not part of how it is reached.
    pub open spec fn touches_managed(self) -> bool {
        ||| self.set_username is Some
        ||| self.clear_username
        ||| self.set_os_icon is Some
        ||| self.clear_os_icon
    }

    /// Whether the edit needs the host to have a row of its own.
    pub open spec fn needs_row(self) -> bool {
        ||| self.changes_connection()
        ||| self.touches_managed()
        ||| self.set_groups is Some
        ||| self.set_identity is Some
        ||| self.clear_identity
        ||| self.set_label is Some
    }

    /// Whether the edit stays within what is kept of every host.
    pub open spec fn only_metadata(self) -> bool {
        !self.needs_row() && self.password is None && !self.clear_password
    }
}

/// The options of an edit but its name, and the words for its port, its logging and
/// its transport, which are yet to be read. The options are taken one after the
/// other; of two flags that contradict each other the negative one wins.
#[verifier::opaque]
pub open spec fn options_of(a: Seq<Seq<char>>) -> (
    EditView,
    Option<Seq<char>>,
    Option<Seq<char>>,
    Option<Seq<char>>,
) {
    let (label, a) = taken(a, "--set-label"@);
    let (new_name, a) = taken(a, "--set-name"@);
    let (address, a) = taken(a, "--set-address"@);
    let (port, a) = taken(a, "--set-port"@);
    let (username, a) = taken(a, "--set-username"@);
    let (clear_username, a) = flagged(a, "--clear-username"@);
    let (tags, a) = taken(a, "--set-tags"@);
    let (notes, a) = taken(a, "--set-notes"@);
    let (clear_notes, a) = flagged(a, "--clear-notes"@);
    let (environment, a) = taken(a, "--set-environment"@);
    let (clear_environment, a) = flagged(a, "--clear-environment"@);
    let (proxy_jump, a) = taken(a, "--set-proxy-jump"@);
    let (clear_proxy_jump, a) = flagged(a, "--clear-proxy-jump"@);
    let (remote_command, a) = taken(a, "--set-remote-command"@);
    let (clear_remote_command, a) = flagged(a, "--clear-remote-command"@);
    let (forward, a) = flagged(a, "--set-forward-agent"@);
    let (no_forward, a) = flagged(a, "--no-forward-agent"@);
    let (os_icon, a) = taken(a, "--set-os-icon"@);
    let (clear_os_icon, a) = flagged(a, "--clear-os-icon"@);
    let (session_log, a) = taken(a, "--set-session-log"@);
    let (transport, a) = taken(a, "--set-transport"@);
    let (favorite, a) = flagged(a, "--favorite"@);
    let (no_favorite, a) = flagged(a, "--no-favorite"@);
    let (identity, a) = taken(a, "--set-identity"@);
    let (clear_identity, a) = flagged(a, "--clear-identity"@);
    let (groups, a) = all_taken(a, "--set-group"@);
    let (password, a) = flagged(a, "--set-password-stdin"@);
    let (clear_password, a) = flagged(a, "--clear-password"@);
    let edit = EditView {
        name: Seq::empty(),
        set_label: field_of(label),
        set_name: new_name,
        set_address: address,
        set_port: None,
        set_username: field_of(username),
        clear_username,
        set_tags: if tags is Some {
            Some(tags_of(tags->0))
        } else {
            None
        },
        set_notes: field_of(notes),
        clear_notes,
        set_environment: field_of(environment),
        clear_environment,
        set_proxy_jump: field_of(proxy_jump),
        clear_proxy_jump,
        set_remote_command: field_of(remote_command),
        clear_remote_command,
        set_forward_agent: chosen_flag(forward, no_forward),
        set_os_icon: field_of(os_icon),
        clear_os_icon,
        set_session_logging: None,
        set_transport: None,
        favorite: chosen_flag(favorite, no_favorite),
        set_identity: identity,
        clear_identity,
        set_groups: if groups.len() > 0 {
            Some(groups)
        } else {
            None
        },
        set_has_password: if password {
            Some(true)
        } else {
            None
        },
        password: if password {
            Some(None)
        } else {
            None
        },
        clear_password,
    };
    (edit, port, session_log, transport)
}

/// What the arguments of an edit ask for, or why they are refused.
pub open spec fn edit_of(args: Seq<Seq<char>>) -> Result<EditView, EditError> {
    let (name, rest) = taken(args, "--name"@);
    let (options, port, session_log, transport) = options_of(rest);
    edit_from(name, options, port, session_log, transport)
}

/// What is asked for by a name, the other options, and the words for the port, the
/// logging and the transport, or why they are refused.
pub open spec fn edit_from(
    name: Option<Seq<char>>,
    options: EditView,
    port: Option<Seq<char>>,
    session_log: Option<Seq<char>>,
    transport: Option<Seq<char>>,
) -> Result<EditView, EditError> {
    let edit = EditView {
        name: name->0,
        set_port: if port is Some {
            port_number(port->0)
        } else {
            None
        },
        set_session_logging: if session_log is Some {
            session_logging_of(session_log->0)
        } else {
            None
        },
        set_transport: if transport is Some {
            transport_of(transport->0)
        } else {
            None
        },
        ..options
    };
    if name is None {
        Err(EditError::MissingName)
    } else if port is Some && edit.set_port is None {
        Err(EditError::InvalidPort)
    } else if session_log is Some && edit.set_session_logging is None {
        Err(EditError::InvalidSessionLog)
    } else if transport is Some && edit.set_transport is None {
        Err(EditError::InvalidTransport)
    } else if !edit.asks_anything() {
        Err(EditError::NothingToEdit)
    } else {
        Ok(edit)
    }
}

/// What two flags ask for, of which the second denies the first.
pub open spec fn chosen_flag(yes: bool, no: bool) -> Option<bool> {
    if no {
        Some(false)
    } else if yes {
        Some(true)
    } else {
        None
    }
}

impl EditError {
    /// What is said of the arguments.
    pub open spec fn text(self) -> Seq<char> {
        match self {
            EditError::MissingName => "edit requires --name"@,
            EditError::InvalidPort => "invalid --set-port"@,
            EditError::InvalidSessionLog => "invalid --set-session-log"@,
            EditError::InvalidTransport => "invalid --set-transport"@,
            EditError::NothingToEdit => "edit requires at least one --set-* flag"@,
        }
    }

    /// What is said of the arguments.
    pub fn message(self) -> (r: &'static str)
        ensures
            r@ == self.text(),
    {
        match self {
            EditError::MissingName => "edit requires --name",
            EditError::InvalidPort => "invalid --set-port",
            EditError::InvalidSessionLog => "invalid --set-session-log",
            EditError::InvalidTransport => "invalid --set-transport",
            EditError::NothingToEdit => "edit requires at least one --set-* flag",
        }
    }
}

/// The options of an edit, with the words that are yet to be read.
struct RawEdit {
    patch: HostEditPatch,
    port: Option<String>,
    session_log: Option<String>,
    transport: Option<String>,
}

/// Take an option that sets a field which may be emptied.
fn take_field(args: &mut Vec<String>, flag: &str) -> (r: Option<Option<String>>)
    ensures
        text_opt2(r) == field_of(taken(texts(old(args)@), flag@).0),
        texts(final(args)@) == taken(texts(old(args)@), flag@).1,
{
    match take_opt(args, flag) {
        Some(v) => Some(optional_field(v.as_str())),
        None => None,
    }
}

/// Take two flags of which the second denies the first.
fn take_choice(args: &mut Vec<String>, yes: &str, no: &str) -> (r: Option<bool>)
    ensures
        ({
            let (first, rest) = flagged(texts(old(args)@), yes@);
            let (second, rest) = flagged(rest, no@);
            &&& r == chosen_flag(first, second)
            &&& texts(final(args)@) == rest
        }),
{
    let first = take_flag(args, yes);
    let second = take_flag(args, no);
    if second {
        Some(false)
    } else if first {
        Some(true)
    } else {
        None
    }
}

/// The arguments as a list of their own.
pub(crate) fn copied_args(args: &[String]) -> (r: Vec<String>)
    ensures
        r@ == args@,
{
    let mut r: Vec<String> = Vec::new();
    let mut i: usize = 0;
    while i < args.len()
        invariant
            i <= args@.len(),
            r@ == args@.take(i as int),
        decreases args@.len() - i,
    {
        r.push(args[i].clone());
        i = i + 1;
    }
    assert(args@.take(i as int) =~= args@);
    r
}

impl HostEditPatch {
    /// Read the arguments of an edit. A password that is to come from the standard
    /// input is left for [`HostEditPatch::provide_password`].
    pub fn parse(args: &[String]) -> (r: Result<HostEditPatch, EditError>)
        ensures
            match edit_of(texts(args@)) {
                Ok(edit) => r matches Ok(p) && p@ == edit,
                Err(e) => r == Err::<HostEditPatch, EditError>(e),
            },
    {
        let mut args = copied_args(args);
        let name = take_opt(&mut args, "--name");
        let raw = HostEditPatch::gather(&mut args);
        HostEditPatch::judged(name, raw)
    }

    /// Read the words that are yet to be read, and say what is asked for.
    fn judged(name: Option<String>, raw: RawEdit) -> (r: Result<HostEditPatch, EditError>)
        ensures
            match edit_from(
                text_opt(name),
                raw.patch@,
                text_opt(raw.port),
                text_opt(raw.session_log),
                text_opt(raw.transport),
            ) {
                Ok(edit) => r matches Ok(p) && p@ == edit,
                Err(e) => r == Err::<HostEditPatch, EditError>(e),
            },
    {
        let name = match name {
            Some(v) => v,
            None => return Err(EditError::MissingName),
        };
        let port = match raw.port {
            Some(v) => match parse_port(v.as_str()) {
                Some(n) => Some(n),
                None => return Err(EditError::InvalidPort),
            },
            None => None,
        };
        let session_logging = match raw.session_log {
            Some(v) => match parse_session_logging(v.as_str()) {
                Some(n) => Some(n),
                None => return Err(EditError::InvalidSessionLog),
            },
            None => None,
        };
        let transport = match raw.transport {
            Some(v) => match parse_transport(v.as_str()) {
                Some(n) => Some(n),
                None => return Err(EditError::InvalidTransport),
            },
            None => None,
        };
        let patch = raw.patch.completed(name, port, session_logging, transport);
        if !patch.has_any_patch() {
            return Err(EditError::NothingToEdit);
        }
        Ok(patch)
    }

    /// Fill in the name and what was read of the other words.
    fn completed(
        self,
        name: String,
        port: Option<u16>,
        session_logging: Option<SessionLoggingOverride>,
        transport: Option<SessionTransport>,
    ) -> (r: HostEditPatch)
        ensures
            r@ == (EditView {
                name: name@,
                set_port: port,
                set_session_logging: session_logging,
                set_transport: transport,
                ..self@
            }),
    {
        HostEditPatch {
            name,
            set_port: port,
            set_session_logging: session_logging,
            set_transport: transport,
            ..self
        }
    }

    /// Take every option of an edit but its name.
    fn gather(args: &mut Vec<String>) -> (r: RawEdit)
        ensures
            (r.patch@, text_opt(r.port), text_opt(r.session_log), text_opt(r.transport))
                == options_of(texts(old(args)@)),
    {
        proof {
            reveal(options_of);
        }
        let set_label = take_field(args, "--set-label");
        let set_name = take_opt(args, "--set-name");
        let set_address = take_opt(args, "--set-address");
        let port = take_opt(args, "--set-port");
        let set_username = take_field(args, "--set-username");
        let clear_username = take_flag(args, "--clear-username");
        let tags = take_opt(args, "--set-tags");
        let set_notes = take_field(args, "--set-notes");
        let clear_notes = take_flag(args, "--clear-notes");
        let set_environment = take_field(args, "--set-environment");
        let clear_environment = take_flag(args, "--clear-environment");
        let set_proxy_jump = take_field(args, "--set-proxy-jump");
        let clear_proxy_jump = take_flag(args, "--clear-proxy-jump");
        let set_remote_command = take_field(args, "--set-remote-command");
        let clear_remote_command = take_flag(args, "--clear-remote-command");
        let set_forward_agent = take_choice(args, "--set-forward-agent", "--no-forward-agent");
        let set_os_icon = take_field(args, "--set-os-icon");
        let clear_os_icon = take_flag(args, "--clear-os-icon");
        let session_log = take_opt(args, "--set-session-log");
        let transport = take_opt(args, "--set-transport");
        let favorite = take_choice(args, "--favorite", "--no-favorite");
        let set_identity = take_opt(args, "--set-identity");
        let clear_identity = take_flag(args, "--clear-identity");
        let groups = take_all(args, "--set-group");
        let from_stdin = take_flag(args, "--set-password-stdin");
        let clear_password = take_flag(args, "--clear-password");
        let patch = HostEditPatch {
            name: String::new(),
            set_label,
            set_name,
            set_address,
            set_port: None,
            set_username,
            clear_username,
            set_tags: match tags {
                Some(v) => Some(parse_tags(v.as_str())),
                None => None,
            },
            set_notes,
            clear_notes,
            set_environment,
            clear_environment,
            set_proxy_jump,
            clear_proxy_jump,
            set_remote_command,
            clear_remote_command,
            set_forward_agent,
            set_os_icon,
            clear_os_icon,
            set_session_logging: None,
            set_transport: None,
            favorite,
            set_identity,
            clear_identity,
            set_groups: if groups.len() > 0 {
                Some(groups)
            } else {
                None
            },
            set_has_password: if from_stdin {
                Some(true)
            } else {
                None
            },
            password: if from_stdin {
                Some(NewPassword::Stdin)
            } else {
                None
            },
            clear_password,
        };
        RawEdit { patch, port, session_log, transport }
    }

    /// Whether the edit asks for anything at all.
    pub fn has_any_patch(&self) -> (r: bool)
        ensures
            r == self@.asks_anything(),
    {
        self.set_label.is_some() || self.set_name.is_some() || self.set_address.is_some()
            || self.set_port.is_some() || self.set_username.is_some() || self.clear_username
            || self.set_tags.is_some() || self.set_notes.is_some() || self.clear_notes
            || self.set_environment.is_some() || self.clear_environment
            || self.set_proxy_jump.is_some() || self.clear_proxy_jump
            || self.set_remote_command.is_some() || self.clear_remote_command
            || self.set_forward_agent.is_some() || self.set_os_icon.is_some()
            || self.clear_os_icon || self.set_session_logging.is_some()
            || self.set_transport.is_some() || self.favorite.is_some()
            || self.set_identity.is_some() || self.clear_identity || self.set_groups.is_some()
            || self.password.is_some() || self.clear_password
    }

    /// Whether a host without a row of its own must be given one first.
    pub fn needs_materialize(&self) -> (r: bool)
        ensures
            r == self@.needs_row(),
    {
        self.changes_connection_fields() || self.set_groups.is_some()
            || self.set_identity.is_some() || self.clear_identity || self.set_label.is_some()
            || self.touches_managed_fields()
    }

    /// Whether the edit stays within what is kept of every host.
    pub fn metadata_only(&self) -> (r: bool)
        ensures
            r == self@.only_metadata(),
    {
        !self.changes_connection_fields() && self.set_groups.is_none()
            && self.set_identity.is_none() && !self.clear_identity && self.password.is_none()
            && !self.clear_password && self.set_label.is_none() && !self.touches_managed_fields()
    }

    /// Whether the edit touches fields of a host's row that are not part of how it
    /// is reached: a host read from `ssh_config` may have them changed.
    pub fn touches_managed_fields(&self) -> (r: bool)
        ensures
            r == self@.touches_managed(),
    {
        self.set_username.is_some() || self.clear_username || self.set_os_icon.is_some()
            || self.clear_os_icon
    }

    /// Whether the edit changes how the host is reached.
    pub fn changes_connection_fields(&self) -> (r: bool)
        ensures
            r == self@.changes_connection(),
    {
        self.set_name.is_some() || self.set_address.is_some() || self.set_port.is_some()
            || self.set_proxy_jump.is_some() || self.clear_proxy_jump
            || self.set_forward_agent.is_some() || self.set_remote_command.is_some()
            || self.clear_remote_command
    }

    /// Give the edit the password that was read from the standard input, without
    /// the line end after it.
    pub fn provide_password(&mut self, input: &str)
        ensures
            old(self).password == Some(NewPassword::Stdin) ==> final(self)@ == (EditView {
                password: Some(Some(without_line_end(input@))),
                ..old(self)@
            }),
            old(self).password != Some(NewPassword::Stdin) ==> *final(self) == *old(self),
    {
        if let Some(NewPassword::Stdin) = self.password {
            self.password = Some(NewPassword::Text(strip_line_end(input)));
        }
    }
}

/// A text without the carriage returns and line feeds at its end.
pub open spec fn without_line_end(s: Seq<char>) -> Seq<char>
    decreases s.len(),
{
    if s.len() > 0 && (s.last() == '\r' || s.last() == '\n') {
        without_line_end(s.drop_last())
    } else {
        s
    }
}

/// Take the carriage returns and line feeds off the end of a text.
pub fn strip_line_end(s: &str) -> (r: String)
    ensures
        r@ == without_line_end(s@),
{
    let v = crate::text::chars_of(s);
    let mut n: usize = v.len();
    assert(s@.take(n as int) =~= s@);
    while n > 0 && (v[n - 1] == '\r' || v[n - 1] == '\n')
        invariant
            n <= v@.len(),
            v@ == s@,
            without_line_end(s@.take(n as int)) == without_line_end(s@),
        decreases n,
    {
        assert(s@.take(n as int).drop_last() =~= s@.take(n - 1));
        n = n - 1;
    }
    crate::text::text_of(&v, 0, n)
}

/// An edit that stays within the metadata, and one that needs a row, exclude each
/// other; what is left is an edit of the password alone, which does neither.
pub proof fn law_edit_routes_exclude(edit: EditView)
    ensures
        !(edit.only_metadata() && edit.needs_row()),
        !edit.only_metadata() && !edit.needs_row() ==> edit.password is Some
            || edit.clear_password,
        edit.changes_connection() || edit.touches_managed() ==> edit.needs_row()
            && !edit.only_metadata(),
{
}

// ---------------------------------------------------------------------------
// What the arguments mean

/// The options of an edit, which have values.
pub open spec fn edit_options() -> Set<Seq<char>> {
    Set::new(
        |w: Seq<char>|
            w == "--name"@ || w == "--set-label"@ || w == "--set-name"@ || w == "--set-address"@ || w == "--set-port"@ || w == "--set-username"@ || w == "--set-tags"@ || w == "--set-notes"@ || w == "--set-environment"@ || w == "--set-proxy-jump"@ || w == "--set-remote-command"@ || w == "--set-os-icon"@ || w == "--set-session-log"@ || w == "--set-transport"@ || w == "--set-identity"@ || w == "--set-group"@,
    )
}

/// The flags of an edit.
pub open spec fn edit_flags() -> Set<Seq<char>> {
    Set::new(
        |w: Seq<char>|
            w == "--clear-username"@ || w == "--clear-notes"@ || w == "--clear-environment"@ || w == "--clear-proxy-jump"@ || w == "--clear-remote-command"@ || w == "--set-forward-agent"@ || w == "--no-forward-agent"@ || w == "--clear-os-icon"@ || w == "--favorite"@ || w == "--no-favorite"@ || w == "--clear-identity"@ || w == "--set-password-stdin"@ || w == "--clear-password"@,
    )
}

proof fn lemma_edit_words()
    ensures
        mark("--name"@) == (6nat, 'n', 'e'),
        mark("--set-label"@) == (11nat, 's', 'l'),
        mark("--set-name"@) == (10nat, 's', 'e'),
        mark("--set-address"@) == (13nat, 's', 's'),
        mark("--set-port"@) == (10nat, 's', 't'),
        mark("--set-username"@) == (14nat, 's', 'e'),
        mark("--clear-username"@) == (16nat, 'c', 'e'),
        mark("--set-tags"@) == (10nat, 's', 's'),
        mark("--set-notes"@) == (11nat, 's', 's'),
        mark("--clear-notes"@) == (13nat, 'c', 's'),
        mark("--set-environment"@) == (17nat, 's', 't'),
        mark("--clear-environment"@) == (19nat, 'c', 't'),
        mark("--set-proxy-jump"@) == (16nat, 's', 'p'),
        mark("--clear-proxy-jump"@) == (18nat, 'c', 'p'),
        mark("--set-remote-command"@) == (20nat, 's', 'd'),
        mark("--clear-remote-command"@) == (22nat, 'c', 'd'),
        mark("--set-forward-agent"@) == (19nat, 's', 't'),
        mark("--no-forward-agent"@) == (18nat, 'n', 't'),
        mark("--set-os-icon"@) == (13nat, 's', 'n'),
        mark("--clear-os-icon"@) == (15nat, 'c', 'n'),
        mark("--set-session-log"@) == (17nat, 's', 'g'),
        mark("--set-transport"@) == (15nat, 's', 't'),
        mark("--favorite"@) == (10nat, 'f', 'e'),
        mark("--no-favorite"@) == (13nat, 'n', 'e'),
        mark("--set-identity"@) == (14nat, 's', 'y'),
        mark("--clear-identity"@) == (16nat, 'c', 'y'),
        mark("--set-group"@) == (11nat, 's', 'p'),
        mark("--set-password-stdin"@) == (20nat, 's', 'n'),
        mark("--clear-password"@) == (16nat, 'c', 'd'),
{
    reveal_strlit("--name");
    assert("--name"@.len() == 6);
    reveal_strlit("--set-label");
    assert("--set-label"@.len() == 11);
    reveal_strlit("--set-name");
    assert("--set-name"@.len() == 10);
    reveal_strlit("--set-address");
    assert("--set-address"@.len() == 13);
    reveal_strlit("--set-port");
    assert("--set-port"@.len() == 10);
    reveal_strlit("--set-username");
    assert("--set-username"@.len() == 14);
    reveal_strlit("--clear-username");
    assert("--clear-username"@.len() == 16);
    reveal_strlit("--set-tags");
    assert("--set-tags"@.len() == 10);
    reveal_strlit("--set-notes");
    assert("--set-notes"@.len() == 11);
    reveal_strlit("--clear-notes");
    assert("--clear-notes"@.len() == 13);
    reveal_strlit("--set-environment");
    assert("--set-environment"@.len() == 17);
    reveal_strlit("--clear-environment");
    assert("--clear-environment"@.len() == 19);
    reveal_strlit("--set-proxy-jump");
    assert("--set-proxy-jump"@.len() == 16);
    reveal_strlit("--clear-proxy-jump");
    assert("--clear-proxy-jump"@.len() == 18);
    reveal_strlit("--set-remote-command");
    assert("--set-remote-command"@.len() == 20);
    reveal_strlit("--clear-remote-command");
    assert("--clear-remote-command"@.len() == 22);
    reveal_strlit("--set-forward-agent");
    assert("--set-forward-agent"@.len() == 19);
    reveal_strlit("--no-forward-agent");
    assert("--no-forward-agent"@.len() == 18);
    reveal_strlit("--set-os-icon");
    assert("--set-os-icon"@.len() == 13);
    reveal_strlit("--clear-os-icon");
    assert("--clear-os-icon"@.len() == 15);
    reveal_strlit("--set-session-log");
    assert("--set-session-log"@.len() == 17);
    reveal_strlit("--set-transport");
    assert("--set-transport"@.len() == 15);
    reveal_strlit("--favorite");
    assert("--favorite"@.len() == 10);
    reveal_strlit("--no-favorite");
    assert("--no-favorite"@.len() == 13);
    reveal_strlit("--set-identity");
    assert("--set-identity"@.len() == 14);
    reveal_strlit("--clear-identity");
    assert("--clear-identity"@.len() == 16);
    reveal_strlit("--set-group");
    assert("--set-group"@.len() == 11);
    reveal_strlit("--set-password-stdin");
    assert("--set-password-stdin"@.len() == 20);
    reveal_strlit("--clear-password");
    assert("--clear-password"@.len() == 16);
}

/// The options of an edit may come in any order: each field is what its own option or
/// flag says, the first one where it is repeated, and is left alone without it.
#[verifier::rlimit(60)]
pub proof fn law_edit_options_in_any_order(items: Seq<Arg>)
    requires
        well_spelled(items, edit_options(), edit_flags()),
    ensures
        ({
            let (e, port, log, transport) = options_of(spelled(items));
            &&& port == asked(items, "--set-port"@)
            &&& log == asked(items, "--set-session-log"@)
            &&& transport == asked(items, "--set-transport"@)
            &&& e.set_label == field_of(asked(items, "--set-label"@))
            &&& e.set_name == asked(items, "--set-name"@)
            &&& e.set_address == asked(items, "--set-address"@)
            &&& e.set_username == field_of(asked(items, "--set-username"@))
            &&& e.clear_username == told(items, "--clear-username"@)
            &&& e.set_tags == (match asked(items, "--set-tags"@) {
                Some(s) => Some(tags_of(s)),
                None => None,
            })
            &&& e.set_notes == field_of(asked(items, "--set-notes"@))
            &&& e.clear_notes == told(items, "--clear-notes"@)
            &&& e.set_environment == field_of(asked(items, "--set-environment"@))
            &&& e.clear_environment == told(items, "--clear-environment"@)
            &&& e.set_proxy_jump == field_of(asked(items, "--set-proxy-jump"@))
            &&& e.clear_proxy_jump == told(items, "--clear-proxy-jump"@)
            &&& e.set_remote_command == field_of(asked(items, "--set-remote-command"@))
            &&& e.clear_remote_command == told(items, "--clear-remote-command"@)
            &&& e.set_os_icon == field_of(asked(items, "--set-os-icon"@))
            &&& e.clear_os_icon == told(items, "--clear-os-icon"@)
            &&& e.set_identity == asked(items, "--set-identity"@)
            &&& e.clear_identity == told(items, "--clear-identity"@)
            &&& e.clear_password == told(items, "--clear-password"@)
            &&& (told(items, "--no-forward-agent"@) ==> e.set_forward_agent == Some(false))
            &&& (!told(items, "--no-forward-agent"@) && told(items, "--set-forward-agent"@)
                ==> e.set_forward_agent == Some(true))
            &&& (!told(items, "--no-forward-agent"@) && !told(items, "--set-forward-agent"@)
                ==> e.set_forward_agent is None)
            &&& (told(items, "--no-favorite"@) ==> e.favorite == Some(false))
            &&& (!told(items, "--no-favorite"@) && told(items, "--favorite"@) ==> e.favorite
                == Some(true))
            &&& (!told(items, "--no-favorite"@) && !told(items, "--favorite"@) ==> e.favorite
                is None)
            &&& (e.set_groups is None <==> asked_all(items, "--set-group"@).len() == 0)
            &&& (e.set_groups is Some ==> e.set_groups->0 == asked_all(items, "--set-group"@))
            &&& (told(items, "--set-password-stdin"@) ==> e.password == Some(
                None::<Seq<char>>,
            ) && e.set_has_password == Some(true))
            &&& (!told(items, "--set-password-stdin"@) ==> e.password is None
                && e.set_has_password is None)
        }),
{
    reveal(options_of);
    lemma_edit_words();
    lemma_option_is_taken(items, edit_options(), edit_flags(), "--set-label"@);
    lemma_others_are_left(items, edit_options(), edit_flags(), "--set-label"@);
    let a0 = without_first(items, "--set-label"@);
    lemma_option_is_taken(a0, edit_options(), edit_flags(), "--set-name"@);
    lemma_others_are_left(a0, edit_options(), edit_flags(), "--set-name"@);
    let a1 = without_first(a0, "--set-name"@);
    lemma_option_is_taken(a1, edit_options(), edit_flags(), "--set-address"@);
    lemma_others_are_left(a1, edit_options(), edit_flags(), "--set-address"@);
    let a2 = without_first(a1, "--set-address"@);
    lemma_option_is_taken(a2, edit_options(), edit_flags(), "--set-port"@);
    lemma_others_are_left(a2, edit_options(), edit_flags(), "--set-port"@);
    let a3 = without_first(a2, "--set-port"@);
    lemma_option_is_taken(a3, edit_options(), edit_flags(), "--set-username"@);
    lemma_others_are_left(a3, edit_options(), edit_flags(), "--set-username"@);
    let a4 = without_first(a3, "--set-username"@);
    lemma_flag_is_taken(a4, edit_options(), edit_flags(), "--clear-username"@);
    lemma_others_are_left(a4, edit_options(), edit_flags(), "--clear-username"@);
    let a5 = without_first(a4, "--clear-username"@);
    lemma_option_is_taken(a5, edit_options(), edit_flags(), "--set-tags"@);
    lemma_others_are_left(a5, edit_options(), edit_flags(), "--set-tags"@);
    let a6 = without_first(a5, "--set-tags"@);
    lemma_option_is_taken(a6, edit_options(), edit_flags(), "--set-notes"@);
    lemma_others_are_left(a6, edit_options(), edit_flags(), "--set-notes"@);
    let a7 = without_first(a6, "--set-notes"@);
    lemma_flag_is_taken(a7, edit_options(), edit_flags(), "--clear-notes"@);
    lemma_others_are_left(a7, edit_options(), edit_flags(), "--clear-notes"@);
    let a8 = without_first(a7, "--clear-notes"@);
    lemma_option_is_taken(a8, edit_options(), edit_flags(), "--set-environment"@);
    lemma_others_are_left(a8, edit_options(), edit_flags(), "--set-environment"@);
    let a9 = without_first(a8, "--set-environment"@);
    lemma_flag_is_taken(a9, edit_options(), edit_flags(), "--clear-environment"@);
    lemma_others_are_left(a9, edit_options(), edit_flags(), "--clear-environment"@);
    let a10 = without_first(a9, "--clear-environment"@);
    lemma_option_is_taken(a10, edit_options(), edit_flags(), "--set-proxy-jump"@);
    lemma_others_are_left(a10, edit_options(), edit_flags(), "--set-proxy-jump"@);
    let a11 = without_first(a10, "--set-proxy-jump"@);
    lemma_flag_is_taken(a11, edit_options(), edit_flags(), "--clear-proxy-jump"@);
    lemma_others_are_left(a11, edit_options(), edit_flags(), "--clear-proxy-jump"@);
    let a12 = without_first(a11, "--clear-proxy-jump"@);
    lemma_option_is_taken(a12, edit_options(), edit_flags(), "--set-remote-command"@);
    lemma_others_are_left(a12, edit_options(), edit_flags(), "--set-remote-command"@);
    let a13 = without_first(a12, "--set-remote-command"@);
    lemma_flag_is_taken(a13, edit_options(), edit_flags(), "--clear-remote-command"@);
    lemma_others_are_left(a13, edit_options(), edit_flags(), "--clear-remote-command"@);
    let a14 = without_first(a13, "--clear-remote-command"@);
    lemma_flag_is_taken(a14, edit_options(), edit_flags(), "--set-forward-agent"@);
    lemma_others_are_left(a14, edit_options(), edit_flags(), "--set-forward-agent"@);
    let a15 = without_first(a14, "--set-forward-agent"@);
    lemma_flag_is_taken(a15, edit_options(), edit_flags(), "--no-forward-agent"@);
    lemma_others_are_left(a15, edit_options(), edit_flags(), "--no-forward-agent"@);
    let a16 = without_first(a15, "--no-forward-agent"@);
    lemma_option_is_taken(a16, edit_options(), edit_flags(), "--set-os-icon"@);
    lemma_others_are_left(a16, edit_options(), edit_flags(), "--set-os-icon"@);
    let a17 = without_first(a16, "--set-os-icon"@);
    lemma_flag_is_taken(a17, edit_options(), edit_flags(), "--clear-os-icon"@);
    lemma_others_are_left(a17, edit_options(), edit_flags(), "--clear-os-icon"@);
    let a18 = without_first(a17, "--clear-os-icon"@);
    lemma_option_is_taken(a18, edit_options(), edit_flags(), "--set-session-log"@);
    lemma_others_are_left(a18, edit_options(), edit_flags(), "--set-session-log"@);
    let a19 = without_first(a18, "--set-session-log"@);
    lemma_option_is_taken(a19, edit_options(), edit_flags(), "--set-transport"@);
    lemma_others_are_left(a19, edit_options(), edit_flags(), "--set-transport"@);
    let a20 = without_first(a19, "--set-transport"@);
    lemma_flag_is_taken(a20, edit_options(), edit_flags(), "--favorite"@);
    lemma_others_are_left(a20, edit_options(), edit_flags(), "--favorite"@);
    let a21 = without_first(a20, "--favorite"@);
    lemma_flag_is_taken(a21, edit_options(), edit_flags(), "--no-favorite"@);
    lemma_others_are_left(a21, edit_options(), edit_flags(), "--no-favorite"@);
    let a22 = without_first(a21, "--no-favorite"@);
    lemma_option_is_taken(a22, edit_options(), edit_flags(), "--set-identity"@);
    lemma_others_are_left(a22, edit_options(), edit_flags(), "--set-identity"@);
    let a23 = without_first(a22, "--set-identity"@);
    lemma_flag_is_taken(a23, edit_options(), edit_flags(), "--clear-identity"@);
    lemma_others_are_left(a23, edit_options(), edit_flags(), "--clear-identity"@);
    let a24 = without_first(a23, "--clear-identity"@);
    lemma_options_are_taken(a24, edit_options(), edit_flags(), "--set-group"@);
    lemma_others_are_left_by_all(a24, edit_options(), edit_flags(), "--set-group"@);
    let a25 = without_all(a24, "--set-group"@);
    lemma_flag_is_taken(a25, edit_options(), edit_flags(), "--set-password-stdin"@);
    lemma_others_are_left(a25, edit_options(), edit_flags(), "--set-password-stdin"@);
    let a26 = without_first(a25, "--set-password-stdin"@);
    lemma_flag_is_taken(a26, edit_options(), edit_flags(), "--clear-password"@);
    lemma_others_are_left(a26, edit_options(), edit_flags(), "--clear-password"@);
    let a27 = without_first(a26, "--clear-password"@);
}

/// What an accepted edit asks for is what its arguments say, option by option; and it is
/// refused exactly where no host is named, a word cannot be read, or nothing is asked
/// for.
pub proof fn law_edit_is_read(items: Seq<Arg>)
    requires
        well_spelled(items, edit_options(), edit_flags()),
    ensures
        ({
            let r = edit_of(spelled(items));
            let port = asked(items, "--set-port"@);
            let log = asked(items, "--set-session-log"@);
            let transport = asked(items, "--set-transport"@);
            &&& (asked(items, "--name"@) is None <==> r == Err::<EditView, EditError>(
                EditError::MissingName,
            ))
            &&& (port is Some && port_number(port->0) is None ==> r is Err)
            &&& (log is Some && session_logging_of(log->0) is None ==> r is Err)
            &&& (transport is Some && transport_of(transport->0) is None ==> r is Err)
            &&& (r == Err::<EditView, EditError>(EditError::InvalidPort) ==> port is Some
                && port_number(port->0) is None)
            &&& (r == Err::<EditView, EditError>(EditError::InvalidSessionLog) ==> log is Some
                && session_logging_of(log->0) is None)
            &&& (r == Err::<EditView, EditError>(EditError::InvalidTransport) ==> transport
                is Some && transport_of(transport->0) is None)
            &&& (r is Ok ==> {
                let e = r->Ok_0;
                &&& Some(e.name) == asked(items, "--name"@)
                &&& (port is None ==> e.set_port is None)
                &&& (port is Some ==> e.set_port is Some && e.set_port == port_number(port->0))
                &&& (log is None ==> e.set_session_logging is None)
                &&& (log is Some ==> e.set_session_logging is Some && e.set_session_logging
                    == session_logging_of(log->0))
                &&& (transport is None ==> e.set_transport is None)
                &&& (transport is Some ==> e.set_transport is Some && e.set_transport
                    == transport_of(transport->0))
                &&& e.set_label == field_of(asked(items, "--set-label"@))
                &&& e.set_name == asked(items, "--set-name"@)
                &&& e.set_address == asked(items, "--set-address"@)
                &&& e.set_username == field_of(asked(items, "--set-username"@))
                &&& e.clear_username == told(items, "--clear-username"@)
                &&& e.set_tags == (match asked(items, "--set-tags"@) {
                    Some(s) => Some(tags_of(s)),
                    None => None,
                })
                &&& e.set_notes == field_of(asked(items, "--set-notes"@))
                &&& e.clear_notes == told(items, "--clear-notes"@)
                &&& e.set_environment == field_of(asked(items, "--set-environment"@))
                &&& e.clear_environment == told(items, "--clear-environment"@)
                &&& e.set_proxy_jump == field_of(asked(items, "--set-proxy-jump"@))
                &&& e.clear_proxy_jump == told(items, "--clear-proxy-jump"@)
                &&& e.set_remote_command == field_of(asked(items, "--set-remote-command"@))
                &&& e.clear_remote_command == told(items, "--clear-remote-command"@)
                &&& e.set_os_icon == field_of(asked(items, "--set-os-icon"@))
                &&& e.clear_os_icon == told(items, "--clear-os-icon"@)
                &&& e.set_identity == asked(items, "--set-identity"@)
                &&& e.clear_identity == told(items, "--clear-identity"@)
                &&& e.clear_password == told(items, "--clear-password"@)
                &&& (told(items, "--no-forward-agent"@) ==> e.set_forward_agent == Some(false))
                &&& (!told(items, "--no-forward-agent"@) && told(items, "--set-forward-agent"@)
                    ==> e.set_forward_agent == Some(true))
                &&& (!told(items, "--no-forward-agent"@) && !told(items, "--set-forward-agent"@)
                    ==> e.set_forward_agent is None)
                &&& (told(items, "--no-favorite"@) ==> e.favorite == Some(false))
                &&& (!told(items, "--no-favorite"@) && told(items, "--favorite"@) ==> e.favorite
                    == Some(true))
                &&& (!told(items, "--no-favorite"@) && !told(items, "--favorite"@) ==> e.favorite
                    is None)
                &&& (e.set_groups is None <==> asked_all(items, "--set-group"@).len() == 0)
                &&& (e.set_groups is Some ==> e.set_groups->0 == asked_all(items, "--set-group"@))
                &&& (told(items, "--set-password-stdin"@) ==> e.password == Some(
                    None::<Seq<char>>,
                ) && e.set_has_password == Some(true))
                &&& (!told(items, "--set-password-stdin"@) ==> e.password is None
                    && e.set_has_password is None)
            })
        }),
{
    lemma_edit_words();
    lemma_option_is_taken(items, edit_options(), edit_flags(), "--name"@);
    lemma_others_are_left(items, edit_options(), edit_flags(), "--name"@);
    let rest = without_first(items, "--name"@);
    law_edit_options_in_any_order(rest);
}

/// An edit that names a host, whose words can be read and that asks for anything is
/// accepted; one that gives no option or flag but the name is refused.
pub proof fn law_edit_is_accepted(items: Seq<Arg>)
    requires
        well_spelled(items, edit_options(), edit_flags()),
        asked(items, "--name"@) is Some,
        asked(items, "--set-port"@) is Some ==> port_number(asked(items, "--set-port"@)->0) is Some,
        asked(items, "--set-session-log"@) is Some ==> session_logging_of(
            asked(items, "--set-session-log"@)->0,
        ) is Some,
        asked(items, "--set-transport"@) is Some ==> transport_of(
            asked(items, "--set-transport"@)->0,
        ) is Some,
    ensures
        (exists|w: Seq<char>|
            w != "--name"@ && (edit_options().contains(w) && #[trigger] asked(items, w) is Some
                && (w == "--set-group"@ ==> asked_all(items, w).len() > 0))) ==> edit_of(
            spelled(items),
        ) is Ok,
        (exists|w: Seq<char>| edit_flags().contains(w) && #[trigger] told(items, w)) ==> edit_of(
            spelled(items),
        ) is Ok,
        (forall|w: Seq<char>| w != "--name"@ ==> #[trigger] asked(items, w) is None) && (forall|
            w: Seq<char>,
        | !(#[trigger] told(items, w))) && asked_all(items, "--set-group"@).len() == 0 ==> edit_of(
            spelled(items),
        ) == Err::<EditView, EditError>(EditError::NothingToEdit),
{
    lemma_edit_words();
    lemma_option_is_taken(items, edit_options(), edit_flags(), "--name"@);
    lemma_others_are_left(items, edit_options(), edit_flags(), "--name"@);
    let rest = without_first(items, "--name"@);
    law_edit_options_in_any_order(rest);
}

/// Taking the line end off a text takes carriage returns and line feeds off its end,
/// all of them, and nothing else.
pub proof fn law_line_end_is_taken_off(s: Seq<char>)
    ensures
        ({
            let t = without_line_end(s);
            &&& t.len() <= s.len()
            &&& t == s.take(t.len() as int)
            &&& forall|i: int|
                t.len() <= i < s.len() ==> #[trigger] s[i] == '\r' || s[i] == '\n'
            &&& (t.len() > 0 ==> t.last() != '\r' && t.last() != '\n')
        }),
    decreases s.len(),
{
    if s.len() > 0 && (s.last() == '\r' || s.last() == '\n') {
        let front = s.drop_last();
        law_line_end_is_taken_off(front);
        let t = without_line_end(s);
        assert(front.take(t.len() as int) =~= s.take(t.len() as int));
        assert forall|i: int| t.len() <= i < s.len() implies #[trigger] s[i] == '\r' || s[i]
            == '\n' by {
            if i < front.len() {
                assert(front[i] == s[i]);
            }
        }
    } else {
        assert(s.take(s.len() as int) =~= s);
    }
}

/// What is said of the arguments ends with the option that is missing or wrong, and says
/// which of the two it is.
pub proof fn law_edit_errors_name_their_option(e: EditError)
    ensures
        e is MissingName ==> e.text() == "edit requires "@ + "--name"@,
        e is NothingToEdit ==> e.text() == "edit requires "@ + "at least one --set-* flag"@,
        e is InvalidPort ==> e.text() == "invalid "@ + "--set-port"@,
        e is InvalidSessionLog ==> e.text() == "invalid "@ + "--set-session-log"@,
        e is InvalidTransport ==> e.text() == "invalid "@ + "--set-transport"@,
{
    reveal_strlit("edit requires ");
    reveal_strlit("invalid ");
    reveal_strlit("--name");
    reveal_strlit("at least one --set-* flag");
    reveal_strlit("--set-port");
    reveal_strlit("--set-session-log");
    reveal_strlit("--set-transport");
    reveal_strlit("edit requires --name");
    reveal_strlit("edit requires at least one --set-* flag");
    reveal_strlit("invalid --set-port");
    reveal_strlit("invalid --set-session-log");
    reveal_strlit("invalid --set-transport");
    assert("edit requires --name"@ =~= "edit requires "@ + "--name"@);
    assert("edit requires at least one --set-* flag"@ =~= "edit requires "@
        + "at least one --set-* flag"@);
    assert("invalid --set-port"@ =~= "invalid "@ + "--set-port"@);
    assert("invalid --set-session-log"@ =~= "invalid "@ + "--set-session-log"@);
    assert("invalid --set-transport"@ =~= "invalid "@ + "--set-transport"@);
}

/// A field that may be left alone, set to nothing or set to a text is read as what it
/// is, and so is a password that is given or is to be asked for.
pub proof fn law_fields_are_read_as_they_are(t: String)
    ensures
        text_opt2(None) is None,
        text_opt2(Some(None)) == Some(None::<Seq<char>>),
        text_opt2(Some(Some(t))) == Some(Some(t@)),
        password_text(None) is None,
        password_text(Some(NewPassword::Stdin)) == Some(None::<Seq<char>>),
        password_text(Some(NewPassword::Text(t))) == Some(Some(t@)),
{
}

} // verus!
