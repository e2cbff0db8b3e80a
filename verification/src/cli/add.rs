//! `host add`: reading the arguments, and the host they make.

use vstd::prelude::*;

use crate::cli::host::{copied_args, field_of, password_text, strip_line_end, without_line_end, NewPassword};
use crate::cli::parse::{
    all_taken, asked, asked_all, flagged, lemma_flag_is_taken, lemma_option_is_taken,
    lemma_options_are_taken, lemma_others_are_left, lemma_others_are_left_by_all, mark,
    optional_field, parse_session_logging, parse_tags, parse_transport, session_logging_of, spelled,
    tags_of, take_all, take_flag, take_opt, taken, told, transport_of, well_spelled, without_all,
    without_first, Arg,
};
use crate::model::{HostSource, SessionTransport};
use crate::session_log::SessionLoggingOverride;
use crate::text::{parse_port, port_number, text_opt, texts};

verus! {

/// What the arguments of `host add` ask for.
#[derive(Debug)]
pub struct HostAddSpec {
    pub name: String,
    pub address: String,
    pub port: u16,
    pub label: Option<String>,
    pub groups: Vec<String>,
    pub identity: Option<String>,
    pub username: Option<String>,
    pub tags: Vec<String>,
    pub notes: Option<String>,
    pub proxy_jump: Option<String>,
    pub forward_agent: bool,
    pub remote_command: Option<String>,
    pub transport: SessionTransport,
    pub session_logging: SessionLoggingOverride,
    pub os_icon: Option<String>,
    pub favorite: bool,
    pub password: Option<NewPassword>,
}

/// A new host as its texts say it.
pub ghost struct AddView {
    pub name: Seq<char>,
    pub address: Seq<char>,
    pub port: u16,
    pub label: Option<Seq<char>>,
    pub groups: Seq<Seq<char>>,
    pub identity: Option<Seq<char>>,
    pub username: Option<Seq<char>>,
    pub tags: Seq<Seq<char>>,
    pub notes: Option<Seq<char>>,
    pub proxy_jump: Option<Seq<char>>,
    pub forward_agent: bool,
    pub remote_command: Option<Seq<char>>,
    pub transport: SessionTransport,
    pub session_logging: SessionLoggingOverride,
    pub os_icon: Option<Seq<char>>,
    pub favorite: bool,
    /// `Some(None)` is a password that is yet to be read.
    pub password: Option<Option<Seq<char>>>,
}

/// Why the arguments of `host add` are refused.
#[derive(Debug, Clone, Copy, PartialEq, Eq, Structural)]
pub enum AddError {
    MissingName,
    MissingAddress,
    InvalidPort,
}

impl AddError {
    /// What is said of the arguments.
    pub open spec fn text(self) -> Seq<char> {
        match self {
            AddError::MissingName => "add requires --name"@,
            AddError::MissingAddress => "add requires --address"@,
            AddError::InvalidPort => "invalid --port"@,
        }
    }

    /// What is said of the arguments.
    pub fn message(self) -> (r: &'static str)
        ensures
            r@ == self.text(),
    {
        match self {
            AddError::MissingName => "add requires --name",
            AddError::MissingAddress => "add requires --address",
            AddError::InvalidPort => "invalid --port",
        }
    }
}

impl View for HostAddSpec {
    type V = AddView;

    open spec fn view(&self) -> AddView {
        AddView {
            name: self.name@,
            address: self.address@,
            port: self.port,
            label: text_opt(self.label),
            groups: texts(self.groups@),
            identity: text_opt(self.identity),
            username: text_opt(self.username),
            tags: texts(self.tags@),
            notes: text_opt(self.notes),
            proxy_jump: text_opt(self.proxy_jump),
            forward_agent: self.forward_agent,
            remote_command: text_opt(self.remote_command),
            transport: self.transport,
            session_logging: self.session_logging,
            os_icon: text_opt(self.os_icon),
            favorite: self.favorite,
            password: password_text(self.password),
        }
    }
}

/// A field that is left out where the option is, or where nothing is in it.
pub open spec fn given(o: Option<Seq<char>>) -> Option<Seq<char>> {
    if field_of(o) is Some {
        field_of(o)->0
    } else {
        None
    }
}

/// Whether agent forwarding is asked for, and the arguments that are left: the flag
/// that denies it is looked for first, and the other one only without it.
pub open spec fn forwarding_of(a: Seq<Seq<char>>) -> (bool, Seq<Seq<char>>) {
    let (denied, rest) = flagged(a, "--no-forward-agent"@);
    if denied {
        (false, rest)
    } else {
        flagged(rest, "--forward-agent"@)
    }
}

/// What the arguments of `host add` ask for, or why they are refused. A word for
/// the transport or the logging that is not known counts as none.
pub open spec fn add_of(args: Seq<Seq<char>>) -> Result<AddView, AddError> {
    let (name, a) = taken(args, "--name"@);
    let (address, a) = taken(a, "--address"@);
    let (port, a) = taken(a, "--port"@);
    let (label, a) = taken(a, "--label"@);
    let (groups, a) = all_taken(a, "--group"@);
    let (identity, a) = taken(a, "--identity"@);
    let (username, a) = taken(a, "--username"@);
    let (tags, a) = taken(a, "--tags"@);
    let (notes, a) = taken(a, "--notes"@);
    let (proxy_jump, a) = taken(a, "--proxy-jump"@);
    let (forward_agent, a) = forwarding_of(a);
    let (remote_command, a) = taken(a, "--remote-command"@);
    let (transport, a) = taken(a, "--transport"@);
    let (session_log, a) = taken(a, "--session-log"@);
    let (os_icon, a) = taken(a, "--os-icon"@);
    let (favorite, a) = flagged(a, "--favorite"@);
    let (password, a) = flagged(a, "--password-stdin"@);
    if name is None {
        Err(AddError::MissingName)
    } else if address is None {
        Err(AddError::MissingAddress)
    } else if port is Some && port_number(port->0) is None {
        Err(AddError::InvalidPort)
    } else {
        Ok(
            AddView {
                name: name->0,
                address: address->0,
                port: if port is Some {
                    port_number(port->0)->0
                } else {
                    22
                },
                label: given(label),
                groups,
                identity,
                username: given(username),
                tags: if tags is Some {
                    tags_of(tags->0)
                } else {
                    Seq::empty()
                },
                notes: given(notes),
                proxy_jump: given(proxy_jump),
                forward_agent,
                remote_command: given(remote_command),
                transport: if transport is Some && transport_of(transport->0) is Some {
                    transport_of(transport->0)->0
                } else {
                    SessionTransport::Ssh
                },
                session_logging: if session_log is Some && session_logging_of(
                    session_log->0,
                ) is Some {
                    session_logging_of(session_log->0)->0
                } else {
                    SessionLoggingOverride::Inherit
                },
                os_icon: given(os_icon),
                favorite,
                password: if password {
                    Some(None)
                } else {
                    None
                },
            },
        )
    }
}

/// Take an option that is left out where nothing is in it.
fn take_given(args: &mut Vec<String>, flag: &str) -> (r: Option<String>)
    ensures
        text_opt(r) == given(taken(texts(old(args)@), flag@).0),
        texts(final(args)@) == taken(texts(old(args)@), flag@).1,
{
    match take_opt(args, flag) {
        Some(v) => optional_field(v.as_str()),
        None => None,
    }
}

/// Take the flags of agent forwarding.
fn take_forwarding(args: &mut Vec<String>) -> (r: bool)
    ensures
        (r, texts(final(args)@)) == forwarding_of(texts(old(args)@)),
{
    if take_flag(args, "--no-forward-agent") {
        false
    } else {
        take_flag(args, "--forward-agent")
    }
}

impl HostAddSpec {
    /// Read the arguments of `host add`. A password that is to come from the
    /// standard input is left for [`HostAddSpec::provide_password`].
    pub fn parse(args: &[String]) -> (r: Result<HostAddSpec, AddError>)
        ensures
            match add_of(texts(args@)) {
                Ok(add) => r matches Ok(s) && s@ == add,
                Err(e) => r == Err::<HostAddSpec, AddError>(e),
            },
    {
        let mut args = copied_args(args);
        let name = take_opt(&mut args, "--name");
        let address = take_opt(&mut args, "--address");
        let port = take_opt(&mut args, "--port");
        let label = take_given(&mut args, "--label");
        let groups = take_all(&mut args, "--group");
        let identity = take_opt(&mut args, "--identity");
        let username = take_given(&mut args, "--username");
        let tags = take_opt(&mut args, "--tags");
        let notes = take_given(&mut args, "--notes");
        let proxy_jump = take_given(&mut args, "--proxy-jump");
        let forward_agent = take_forwarding(&mut args);
        let remote_command = take_given(&mut args, "--remote-command");
        let transport = take_opt(&mut args, "--transport");
        let session_log = take_opt(&mut args, "--session-log");
        let os_icon = take_given(&mut args, "--os-icon");
        let favorite = take_flag(&mut args, "--favorite");
        let from_stdin = take_flag(&mut args, "--password-stdin");
        let name = match name {
            Some(v) => v,
            None => return Err(AddError::MissingName),
        };
        let address = match address {
            Some(v) => v,
            None => return Err(AddError::MissingAddress),
        };
        let port: u16 = match port {
            Some(v) => match parse_port(v.as_str()) {
                Some(n) => n,
                None => return Err(AddError::InvalidPort),
            },
            None => 22,
        };
        let tags = match tags {
            Some(v) => parse_tags(v.as_str()),
            None => {
                let none: Vec<String> = Vec::new();
                assert(texts(none@) =~= Seq::empty());
                none
            },
        };
        let transport = match transport {
            Some(v) => match parse_transport(v.as_str()) {
                Some(t) => t,
                None => SessionTransport::Ssh,
            },
            None => SessionTransport::Ssh,
        };
        let session_logging = match session_log {
            Some(v) => match parse_session_logging(v.as_str()) {
                Some(l) => l,
                None => SessionLoggingOverride::Inherit,
            },
            None => SessionLoggingOverride::Inherit,
        };
        let password = if from_stdin {
            Some(NewPassword::Stdin)
        } else {
            None
        };
        Ok(
            HostAddSpec {
                name,
                address,
                port,
                label,
                groups,
                identity,
                username,
                tags,
                notes,
                proxy_jump,
                forward_agent,
                remote_command,
                transport,
                session_logging,
                os_icon,
                favorite,
                password,
            },
        )
    }

    /// Give the new host the password that was read from the standard input,
    /// without the line end after it.
    pub fn provide_password(&mut self, input: &str)
        ensures
            old(self).password == Some(NewPassword::Stdin) ==> final(self)@ == (AddView {
                password: Some(Some(without_line_end(input@))),
                ..old(self)@
            }),
            old(self).password != Some(NewPassword::Stdin) ==> *final(self) == *old(self),
    {
        if let Some(NewPassword::Stdin) = self.password {
            self.password = Some(NewPassword::Text(strip_line_end(input)));
        }
    }

    /// The host that the command creates under a name that is free, in the first
    /// of its groups and with the identity that was found for it; and its password,
    /// which is stored elsewhere.
    pub fn new_host(self, unique_name: String, identity_id: Option<i64>, group_ids: &Vec<i64>) -> (r:
        (NewHost, Option<NewPassword>))
        ensures
            r.0 == created_from(self, unique_name, identity_id, group_ids@),
            r.0.port == self.port,
            r.0.address == self.address,
            r.0.label == self.label,
            r.0.username == self.username,
            r.0.tags == self.tags,
            r.0.notes == self.notes,
            r.0.proxy_jump == self.proxy_jump,
            r.0.forward_agent == self.forward_agent,
            r.0.remote_command == self.remote_command,
            r.0.transport == self.transport,
            r.0.session_logging == self.session_logging,
            r.0.os_icon == self.os_icon,
            r.1 == self.password,
    {
        let host = NewHost {
            name: unique_name,
            label: self.label,
            address: self.address,
            port: self.port,
            group_id: if group_ids.len() > 0 {
                Some(group_ids[0])
            } else {
                None
            },
            identity_id,
            os_icon: self.os_icon,
            tags: self.tags,
            notes: self.notes,
            proxy_jump: self.proxy_jump,
            forward_agent: self.forward_agent,
            remote_command: self.remote_command,
            source: HostSource::Launcher,
            has_password: self.password.is_some(),
            username: self.username,
            session_logging: self.session_logging,
            transport: self.transport,
        };
        (host, self.password)
    }
}

/// A host to be stored.
#[derive(Debug)]
pub struct NewHost {
    pub name: String,
    pub label: Option<String>,
    pub address: String,
    pub port: u16,
    pub group_id: Option<i64>,
    pub identity_id: Option<i64>,
    pub os_icon: Option<String>,
    pub tags: Vec<String>,
    pub notes: Option<String>,
    pub proxy_jump: Option<String>,
    pub forward_agent: bool,
    pub remote_command: Option<String>,
    pub source: HostSource,
    pub has_password: bool,
    pub username: Option<String>,
    pub session_logging: SessionLoggingOverride,
    pub transport: SessionTransport,
}

/// The host that `host add` creates.
pub open spec fn created_from(
    asked: HostAddSpec,
    unique_name: String,
    identity_id: Option<i64>,
    group_ids: Seq<i64>,
) -> NewHost {
    NewHost {
        name: unique_name,
        label: asked.label,
        address: asked.address,
        port: asked.port,
        group_id: if group_ids.len() > 0 {
            Some(group_ids[0])
        } else {
            None
        },
        identity_id,
        os_icon: asked.os_icon,
        tags: asked.tags,
        notes: asked.notes,
        proxy_jump: asked.proxy_jump,
        forward_agent: asked.forward_agent,
        remote_command: asked.remote_command,
        source: HostSource::Launcher,
        has_password: asked.password is Some,
        username: asked.username,
        session_logging: asked.session_logging,
        transport: asked.transport,
    }
}

/// What is said where the name asked for was taken, if it was.
pub open spec fn name_taken_text(asked: Seq<char>, unique: Seq<char>) -> Option<Seq<char>> {
    if unique == asked {
        None
    } else {
        Some("name '"@ + asked + "' taken, using '"@ + unique + "'"@)
    }
}

/// What is said where the name asked for was taken, if it was.
pub fn name_taken_message(asked: &str, unique: &str) -> (r: Option<String>)
    ensures
        text_opt(r) == name_taken_text(asked@, unique@),
{
    if str::eq(unique, asked) {
        None
    } else {
        let mut text = "name '".to_owned();
        text.push_str(asked);
        text.push_str("' taken, using '");
        text.push_str(unique);
        text.push_str("'");
        Some(text)
    }
}

/// The host that `host add` creates carries every field that was asked for, under the
/// free name, with the identity and in the first of the groups that were found; it is
/// marked as having a password exactly where one was given.
pub proof fn law_created_host_field_by_field(
    asked: HostAddSpec,
    unique_name: String,
    identity_id: Option<i64>,
    group_ids: Seq<i64>,
)
    ensures
        ({
            let h = created_from(asked, unique_name, identity_id, group_ids);
            &&& h.name == unique_name && h.address == asked.address && h.port == asked.port
            &&& h.label == asked.label && h.username == asked.username && h.tags == asked.tags
            &&& h.notes == asked.notes && h.proxy_jump == asked.proxy_jump
            &&& h.remote_command == asked.remote_command
            &&& h.forward_agent == asked.forward_agent && h.transport == asked.transport
            &&& h.session_logging == asked.session_logging && h.os_icon == asked.os_icon
            &&& h.identity_id == identity_id && h.source == HostSource::Launcher
            &&& (h.has_password <==> asked.password is Some)
            &&& (group_ids.len() > 0 ==> h.group_id == Some(group_ids[0]))
            &&& (group_ids.len() == 0 ==> h.group_id is None)
        }),
{
}

/// The options of `host add`, which have values.
pub open spec fn add_options() -> Set<Seq<char>> {
    Set::new(
        |w: Seq<char>|
            w == "--name"@ || w == "--address"@ || w == "--port"@ || w == "--label"@ || w == "--group"@ || w == "--identity"@ || w == "--username"@ || w == "--tags"@ || w == "--notes"@ || w == "--proxy-jump"@ || w == "--remote-command"@ || w == "--transport"@ || w == "--session-log"@ || w == "--os-icon"@,
    )
}

/// The flags of `host add`.
pub open spec fn add_flags() -> Set<Seq<char>> {
    Set::new(
        |w: Seq<char>|
            w == "--no-forward-agent"@ || w == "--forward-agent"@ || w == "--favorite"@ || w == "--password-stdin"@,
    )
}

proof fn lemma_add_words()
    ensures
        mark("--name"@) == (6nat, 'n', 'e'),
        mark("--address"@) == (9nat, 'a', 's'),
        mark("--port"@) == (6nat, 'p', 't'),
        mark("--label"@) == (7nat, 'l', 'l'),
        mark("--group"@) == (7nat, 'g', 'p'),
        mark("--identity"@) == (10nat, 'i', 'y'),
        mark("--username"@) == (10nat, 'u', 'e'),
        mark("--tags"@) == (6nat, 't', 's'),
        mark("--notes"@) == (7nat, 'n', 's'),
        mark("--proxy-jump"@) == (12nat, 'p', 'p'),
        mark("--no-forward-agent"@) == (18nat, 'n', 't'),
        mark("--forward-agent"@) == (15nat, 'f', 't'),
        mark("--remote-command"@) == (16nat, 'r', 'd'),
        mark("--transport"@) == (11nat, 't', 't'),
        mark("--session-log"@) == (13nat, 's', 'g'),
        mark("--os-icon"@) == (9nat, 'o', 'n'),
        mark("--favorite"@) == (10nat, 'f', 'e'),
        mark("--password-stdin"@) == (16nat, 'p', 'n'),
{
    reveal_strlit("--name");
    assert("--name"@.len() == 6);
    reveal_strlit("--address");
    assert("--address"@.len() == 9);
    reveal_strlit("--port");
    assert("--port"@.len() == 6);
    reveal_strlit("--label");
    assert("--label"@.len() == 7);
    reveal_strlit("--group");
    assert("--group"@.len() == 7);
    reveal_strlit("--identity");
    assert("--identity"@.len() == 10);
    reveal_strlit("--username");
    assert("--username"@.len() == 10);
    reveal_strlit("--tags");
    assert("--tags"@.len() == 6);
    reveal_strlit("--notes");
    assert("--notes"@.len() == 7);
    reveal_strlit("--proxy-jump");
    assert("--proxy-jump"@.len() == 12);
    reveal_strlit("--no-forward-agent");
    assert("--no-forward-agent"@.len() == 18);
    reveal_strlit("--forward-agent");
    assert("--forward-agent"@.len() == 15);
    reveal_strlit("--remote-command");
    assert("--remote-command"@.len() == 16);
    reveal_strlit("--transport");
    assert("--transport"@.len() == 11);
    reveal_strlit("--session-log");
    assert("--session-log"@.len() == 13);
    reveal_strlit("--os-icon");
    assert("--os-icon"@.len() == 9);
    reveal_strlit("--favorite");
    assert("--favorite"@.len() == 10);
    reveal_strlit("--password-stdin");
    assert("--password-stdin"@.len() == 16);
}

/// What `host add` asks for is what its arguments say, in whatever order they come: each
/// field is the value of its own option, the port is 22 without one, a transport or a
/// logging that is not known counts as none, and agent forwarding is on only where it is
/// asked for and not denied. It is refused exactly where the name or the address is
/// missing or the port cannot be read.
#[verifier::rlimit(40)]
pub proof fn law_add_is_read(items: Seq<Arg>)
    requires
        well_spelled(items, add_options(), add_flags()),
    ensures
        ({
            let r = add_of(spelled(items));
            let port = asked(items, "--port"@);
            let tags = asked(items, "--tags"@);
            let transport = asked(items, "--transport"@);
            let log = asked(items, "--session-log"@);
            &&& (r == Err::<AddView, AddError>(AddError::MissingName) <==> asked(
                items,
                "--name"@,
            ) is None)
            &&& (r == Err::<AddView, AddError>(AddError::MissingAddress) <==> asked(
                items,
                "--name"@,
            ) is Some && asked(items, "--address"@) is None)
            &&& (r == Err::<AddView, AddError>(AddError::InvalidPort) <==> asked(
                items,
                "--name"@,
            ) is Some && asked(items, "--address"@) is Some && port is Some && port_number(
                port->0,
            ) is None)
            &&& (r is Ok ==> {
                let a = r->Ok_0;
                &&& Some(a.name) == asked(items, "--name"@)
                &&& Some(a.address) == asked(items, "--address"@)
                &&& (port is None ==> a.port == 22)
                &&& (port is Some ==> Some(a.port) == port_number(port->0))
                &&& a.label == given(asked(items, "--label"@))
                &&& a.groups == asked_all(items, "--group"@)
                &&& a.identity == asked(items, "--identity"@)
                &&& a.username == given(asked(items, "--username"@))
                &&& (tags is Some ==> a.tags == tags_of(tags->0))
                &&& (tags is None ==> a.tags.len() == 0)
                &&& a.notes == given(asked(items, "--notes"@))
                &&& a.proxy_jump == given(asked(items, "--proxy-jump"@))
                &&& a.remote_command == given(asked(items, "--remote-command"@))
                &&& a.os_icon == given(asked(items, "--os-icon"@))
                &&& (a.transport == SessionTransport::Mosh <==> transport is Some
                    && transport_of(transport->0) == Some(SessionTransport::Mosh))
                &&& (log is Some && session_logging_of(log->0) is Some ==> Some(
                    a.session_logging,
                ) == session_logging_of(log->0))
                &&& (log is None || session_logging_of(log->0) is None ==> a.session_logging
                    == SessionLoggingOverride::Inherit)
                &&& (a.forward_agent <==> told(items, "--forward-agent"@) && !told(
                    items,
                    "--no-forward-agent"@,
                ))
                &&& (a.favorite <==> told(items, "--favorite"@))
                &&& (a.password is Some <==> told(items, "--password-stdin"@))
                &&& (a.password is Some ==> a.password->0 is None)
            })
        }),
{
    lemma_add_words();
    lemma_option_is_taken(items, add_options(), add_flags(), "--name"@);
    lemma_others_are_left(items, add_options(), add_flags(), "--name"@);
    let a0 = without_first(items, "--name"@);
    lemma_option_is_taken(a0, add_options(), add_flags(), "--address"@);
    lemma_others_are_left(a0, add_options(), add_flags(), "--address"@);
    let a1 = without_first(a0, "--address"@);
    lemma_option_is_taken(a1, add_options(), add_flags(), "--port"@);
    lemma_others_are_left(a1, add_options(), add_flags(), "--port"@);
    let a2 = without_first(a1, "--port"@);
    lemma_option_is_taken(a2, add_options(), add_flags(), "--label"@);
    lemma_others_are_left(a2, add_options(), add_flags(), "--label"@);
    let a3 = without_first(a2, "--label"@);
    lemma_options_are_taken(a3, add_options(), add_flags(), "--group"@);
    lemma_others_are_left_by_all(a3, add_options(), add_flags(), "--group"@);
    let a4 = without_all(a3, "--group"@);
    lemma_option_is_taken(a4, add_options(), add_flags(), "--identity"@);
    lemma_others_are_left(a4, add_options(), add_flags(), "--identity"@);
    let a5 = without_first(a4, "--identity"@);
    lemma_option_is_taken(a5, add_options(), add_flags(), "--username"@);
    lemma_others_are_left(a5, add_options(), add_flags(), "--username"@);
    let a6 = without_first(a5, "--username"@);
    lemma_option_is_taken(a6, add_options(), add_flags(), "--tags"@);
    lemma_others_are_left(a6, add_options(), add_flags(), "--tags"@);
    let a7 = without_first(a6, "--tags"@);
    lemma_option_is_taken(a7, add_options(), add_flags(), "--notes"@);
    lemma_others_are_left(a7, add_options(), add_flags(), "--notes"@);
    let a8 = without_first(a7, "--notes"@);
    lemma_option_is_taken(a8, add_options(), add_flags(), "--proxy-jump"@);
    lemma_others_are_left(a8, add_options(), add_flags(), "--proxy-jump"@);
    let a9 = without_first(a8, "--proxy-jump"@);
    lemma_flag_is_taken(a9, add_options(), add_flags(), "--no-forward-agent"@);
    lemma_others_are_left(a9, add_options(), add_flags(), "--no-forward-agent"@);
    let a10 = without_first(a9, "--no-forward-agent"@);
    lemma_flag_is_taken(a10, add_options(), add_flags(), "--forward-agent"@);
    lemma_others_are_left(a10, add_options(), add_flags(), "--forward-agent"@);
    let a11 = if told(items, "--no-forward-agent"@) {
        a10
    } else {
        without_first(a10, "--forward-agent"@)
    };
    lemma_option_is_taken(a11, add_options(), add_flags(), "--remote-command"@);
    lemma_others_are_left(a11, add_options(), add_flags(), "--remote-command"@);
    let a12 = without_first(a11, "--remote-command"@);
    lemma_option_is_taken(a12, add_options(), add_flags(), "--transport"@);
    lemma_others_are_left(a12, add_options(), add_flags(), "--transport"@);
    let a13 = without_first(a12, "--transport"@);
    lemma_option_is_taken(a13, add_options(), add_flags(), "--session-log"@);
    lemma_others_are_left(a13, add_options(), add_flags(), "--session-log"@);
    let a14 = without_first(a13, "--session-log"@);
    lemma_option_is_taken(a14, add_options(), add_flags(), "--os-icon"@);
    lemma_others_are_left(a14, add_options(), add_flags(), "--os-icon"@);
    let a15 = without_first(a14, "--os-icon"@);
    lemma_flag_is_taken(a15, add_options(), add_flags(), "--favorite"@);
    lemma_others_are_left(a15, add_options(), add_flags(), "--favorite"@);
    let a16 = without_first(a15, "--favorite"@);
    lemma_flag_is_taken(a16, add_options(), add_flags(), "--password-stdin"@);
    lemma_others_are_left(a16, add_options(), add_flags(), "--password-stdin"@);
    let a17 = without_first(a16, "--password-stdin"@);
}

/// The host that is created for the arguments of `host add` carries what they say.
pub proof fn law_created_host_is_the_one_asked_for(
    items: Seq<Arg>,
    spec_read: HostAddSpec,
    unique_name: String,
    identity_id: Option<i64>,
    group_ids: Seq<i64>,
)
    requires
        well_spelled(items, add_options(), add_flags()),
        add_of(spelled(items)) == Ok::<AddView, AddError>(spec_read@),
    ensures
        ({
            let h = created_from(spec_read, unique_name, identity_id, group_ids);
            let port = asked(items, "--port"@);
            &&& Some(h.address@) == asked(items, "--address"@)
            &&& (port is None ==> h.port == 22)
            &&& (port is Some ==> Some(h.port) == port_number(port->0))
            &&& text_opt(h.label) == given(asked(items, "--label"@))
            &&& text_opt(h.username) == given(asked(items, "--username"@))
            &&& text_opt(h.notes) == given(asked(items, "--notes"@))
            &&& text_opt(h.proxy_jump) == given(asked(items, "--proxy-jump"@))
            &&& text_opt(h.remote_command) == given(asked(items, "--remote-command"@))
            &&& text_opt(h.os_icon) == given(asked(items, "--os-icon"@))
            &&& (asked(items, "--tags"@) is Some ==> texts(h.tags@) == tags_of(
                asked(items, "--tags"@)->0,
            ))
            &&& (h.forward_agent <==> told(items, "--forward-agent"@) && !told(
                items,
                "--no-forward-agent"@,
            ))
            &&& (h.transport == SessionTransport::Mosh <==> asked(items, "--transport"@) is Some
                && transport_of(asked(items, "--transport"@)->0) == Some(SessionTransport::Mosh))
            &&& (h.has_password <==> told(items, "--password-stdin"@))
            &&& h.name == unique_name && h.identity_id == identity_id
        }),
{
    law_add_is_read(items);
    law_created_host_field_by_field(spec_read, unique_name, identity_id, group_ids);
}

/// A field that is given is what is given without the space around it; it is empty where
/// it is not given or holds nothing but space.
pub proof fn law_given_is_trimmed(o: Option<Seq<char>>)
    ensures
        given(o) is Some <==> o is Some && crate::text::trimmed(o->0).len() > 0,
        given(o) is Some ==> given(o)->0 == crate::text::trimmed(o->0),
        field_of(o) is Some <==> o is Some,
        field_of(o) is Some ==> field_of(o)->0 == given(o),
{
}

/// The user is told of another name exactly where one was found, and of which.
pub proof fn law_taken_name_is_told(wanted: Seq<char>, unique: Seq<char>)
    ensures
        name_taken_text(wanted, unique) is None <==> unique == wanted,
        unique != wanted ==> name_taken_text(wanted, unique) == Some(
            "name '"@ + wanted + "' taken, using '"@ + unique + "'"@,
        ),
{
}

/// What is said of the arguments ends with the option that is missing or wrong, and says
/// which of the two it is.
pub proof fn law_add_errors_name_their_option(e: AddError)
    ensures
        e is MissingName ==> e.text() == "add requires "@ + "--name"@,
        e is MissingAddress ==> e.text() == "add requires "@ + "--address"@,
        e is InvalidPort ==> e.text() == "invalid "@ + "--port"@,
{
    reveal_strlit("add requires ");
    reveal_strlit("invalid ");
    reveal_strlit("--name");
    reveal_strlit("--address");
    reveal_strlit("--port");
    reveal_strlit("add requires --name");
    reveal_strlit("add requires --address");
    reveal_strlit("invalid --port");
    assert("add requires --name"@ =~= "add requires "@ + "--name"@);
    assert("add requires --address"@ =~= "add requires "@ + "--address"@);
    assert("invalid --port"@ =~= "invalid "@ + "--port"@);
}

} // verus!
