//! `host edit`: which hosts may be changed in which way, and what is stored.

use vstd::prelude::*;

use crate::cli::host::{
    edit_flags, edit_of, edit_options, field_of, law_edit_is_read, text_opt2, EditError, EditView,
    HostEditPatch, NewPassword,
};
use crate::cli::parse::{
    asked, asked_all, session_logging_of, spelled, tags_of, told, transport_of, well_spelled, Arg,
};
use crate::model::{HostEntry, HostMetadata, HostSource, HostUpdate, ManagedHost, SshHost};
use crate::text::{port_number, text_opt, texts};

verus! {

/// What an edit does before anything is changed.
#[derive(Debug, Clone, Copy, PartialEq, Eq, Structural)]
pub enum EditStart {
    /// The host is given a row of its own first.
    Materialize,
    /// The host is edited as it is.
    Proceed,
}

/// Where an edit is made.
#[derive(Debug, Clone, Copy, PartialEq, Eq, Structural)]
pub enum EditRoute {
    /// In the metadata of a host without a row.
    Metadata,
    /// In the metadata fields of a host's row.
    RowMetadata(i64),
    /// In any field of a host's row.
    Row(i64),
}

/// Why an edit of a host is refused.
#[derive(Debug, Clone, Copy, PartialEq, Eq, Structural)]
pub enum EditRefusal {
    /// The host could not be given a row.
    NotMaterialized,
    /// The edit needs a row, and the host has none.
    NoRow,
    /// The host is read from `ssh_config`, which says how it is reached.
    ReadOnly,
}

impl EditRefusal {
    /// What is said of the edit of a host.
    pub open spec fn text(self, name: Seq<char>) -> Seq<char> {
        match self {
            EditRefusal::NotMaterialized => "host '"@ + name + "' could not be materialized"@,
            EditRefusal::NoRow => "host '"@ + name + "' has no managed row for connection edits"@,
            EditRefusal::ReadOnly => "connection fields are read-only for ssh_config hosts"@,
        }
    }

    /// What is said of the edit of a host.
    pub fn message(self, name: &str) -> (r: String)
        ensures
            r@ == self.text(name@),
    {
        match self {
            EditRefusal::NotMaterialized => {
                let mut text = "host '".to_owned();
                text.push_str(name);
                text.push_str("' could not be materialized");
                text
            },
            EditRefusal::NoRow => {
                let mut text = "host '".to_owned();
                text.push_str(name);
                text.push_str("' has no managed row for connection edits");
                text
            },
            EditRefusal::ReadOnly =>
                "connection fields are read-only for ssh_config hosts".to_owned(),
        }
    }
}

/// How an edit starts on a host.
pub open spec fn edit_starts(patch: HostEditPatch, entry: HostEntry) -> EditStart {
    if patch@.needs_row() && !(entry is Managed) {
        EditStart::Materialize
    } else {
        EditStart::Proceed
    }
}

/// Decide how an edit starts on a host.
pub fn start_edit(patch: &HostEditPatch, entry: &HostEntry) -> (r: EditStart)
    ensures
        r == edit_starts(*patch, *entry),
{
    if patch.needs_materialize() && entry.managed_id().is_none() {
        EditStart::Materialize
    } else {
        EditStart::Proceed
    }
}

/// Where an edit of a host is made, or why it is refused.
pub open spec fn edit_goes(patch: HostEditPatch, entry: HostEntry) -> Result<
    EditRoute,
    EditRefusal,
> {
    match entry {
        HostEntry::Managed(m) => if patch@.only_metadata() {
            Ok(EditRoute::RowMetadata(m.id))
        } else if m.source == HostSource::SshConfig && patch@.changes_connection() {
            Err(EditRefusal::ReadOnly)
        } else {
            Ok(EditRoute::Row(m.id))
        },
        HostEntry::Legacy { host, meta } => if patch@.only_metadata() {
            Ok(EditRoute::Metadata)
        } else {
            Err(EditRefusal::NoRow)
        },
    }
}

/// Decide where an edit of a host is made.
pub fn route_edit(patch: &HostEditPatch, entry: &HostEntry) -> (r: Result<EditRoute, EditRefusal>)
    ensures
        r == edit_goes(*patch, *entry),
{
    match entry {
        HostEntry::Managed(m) => {
            if patch.metadata_only() {
                Ok(EditRoute::RowMetadata(m.id))
            } else if m.source == HostSource::SshConfig && patch.changes_connection_fields() {
                Err(EditRefusal::ReadOnly)
            } else {
                Ok(EditRoute::Row(m.id))
            }
        },
        HostEntry::Legacy { host: _, meta: _ } => {
            if patch.metadata_only() {
                Ok(EditRoute::Metadata)
            } else {
                Err(EditRefusal::NoRow)
            }
        },
    }
}

/// What an edit does with the stored password.
#[derive(Debug)]
pub enum PasswordAction {
    Keep,
    Store(String),
    Delete,
}

/// What is done with the stored password. A new one is stored even where the old
/// one is to be cleared; one that was never read is not stored.
pub open spec fn password_action_of(password: Option<NewPassword>, clear: bool) -> PasswordAction {
    match password {
        Some(NewPassword::Text(text)) => PasswordAction::Store(text),
        Some(NewPassword::Stdin) => PasswordAction::Keep,
        None => if clear {
            PasswordAction::Delete
        } else {
            PasswordAction::Keep
        },
    }
}

fn password_action(password: Option<NewPassword>, clear: bool) -> (r: PasswordAction)
    ensures
        r == password_action_of(password, clear),
{
    match password {
        Some(NewPassword::Text(text)) => PasswordAction::Store(text),
        Some(NewPassword::Stdin) => PasswordAction::Keep,
        None => if clear {
            PasswordAction::Delete
        } else {
            PasswordAction::Keep
        },
    }
}

/// What a field that may be emptied is set to: emptying wins over setting.
pub open spec fn set_or_cleared<T>(set: Option<Option<T>>, clear: bool) -> Option<Option<T>> {
    if clear {
        Some(None)
    } else {
        set
    }
}

fn set_or_clear<T>(set: Option<Option<T>>, clear: bool) -> (r: Option<Option<T>>)
    ensures
        r == set_or_cleared(set, clear),
{
    if clear {
        Some(None)
    } else {
        set
    }
}

/// Everything that an edit of a host's row stores.
#[derive(Debug)]
pub struct RowEdit {
    pub id: i64,
    pub update: HostUpdate,
    /// The groups the host is to be in, if that changes.
    pub groups: Option<Vec<String>>,
    pub password: PasswordAction,
    /// The name that is printed in the end.
    pub printed: String,
}

/// The change that an edit makes to a host's row, given the identity that was found
/// for its name and the free name that was found for the one asked for.
pub open spec fn row_update(
    patch: HostEditPatch,
    identity_id: Option<i64>,
    unique_name: Option<String>,
) -> HostUpdate {
    HostUpdate {
        name: if patch.set_name is Some && unique_name is Some {
            unique_name
        } else {
            patch.set_name
        },
        label: patch.set_label,
        address: patch.set_address,
        port: patch.set_port,
        username: set_or_cleared(patch.set_username, patch.clear_username),
        tags: patch.set_tags,
        notes: set_or_cleared(patch.set_notes, patch.clear_notes),
        environment: set_or_cleared(patch.set_environment, patch.clear_environment),
        proxy_jump: set_or_cleared(patch.set_proxy_jump, patch.clear_proxy_jump),
        remote_command: set_or_cleared(patch.set_remote_command, patch.clear_remote_command),
        forward_agent: patch.set_forward_agent,
        os_icon: set_or_cleared(patch.set_os_icon, patch.clear_os_icon),
        session_logging: patch.set_session_logging,
        transport: patch.set_transport,
        favorite: patch.favorite,
        identity_id: if patch.clear_identity {
            Some(None)
        } else if patch.set_identity is Some && identity_id is Some {
            Some(identity_id)
        } else {
            None
        },
        has_password: patch.set_has_password,
    }
}

/// Lay out an edit of a host's row.
pub fn plan_row_edit(
    patch: HostEditPatch,
    managed: &ManagedHost,
    identity_id: Option<i64>,
    unique_name: Option<String>,
) -> (r: RowEdit)
    ensures
        r.id == managed.id,
        r.update == row_update(patch, identity_id, unique_name),
        r.update.address == patch.set_address,
        r.update.port == patch.set_port,
        r.update.label == patch.set_label,
        r.update.tags == patch.set_tags,
        r.update.forward_agent == patch.set_forward_agent,
        r.update.session_logging == patch.set_session_logging,
        r.update.transport == patch.set_transport,
        r.update.favorite == patch.favorite,
        r.update.has_password == patch.set_has_password,
        r.groups == patch.set_groups,
        r.password == password_action_of(patch.password, patch.clear_password),
        r.printed == (if r.update.name is Some {
            r.update.name->0
        } else {
            managed.name
        }),
{
    let printed = match (&patch.set_name, &unique_name) {
        (Some(_), Some(unique)) => unique.clone(),
        (Some(asked), None) => asked.clone(),
        (None, _) => managed.name.clone(),
    };
    let identity = if patch.clear_identity {
        Some(None)
    } else if patch.set_identity.is_some() && identity_id.is_some() {
        Some(identity_id)
    } else {
        None
    };
    let name = match patch.set_name {
        Some(asked) => match unique_name {
            Some(unique) => Some(unique),
            None => Some(asked),
        },
        None => None,
    };
    let update = HostUpdate {
        name,
        label: patch.set_label,
        address: patch.set_address,
        port: patch.set_port,
        username: set_or_clear(patch.set_username, patch.clear_username),
        tags: patch.set_tags,
        notes: set_or_clear(patch.set_notes, patch.clear_notes),
        environment: set_or_clear(patch.set_environment, patch.clear_environment),
        proxy_jump: set_or_clear(patch.set_proxy_jump, patch.clear_proxy_jump),
        remote_command: set_or_clear(patch.set_remote_command, patch.clear_remote_command),
        forward_agent: patch.set_forward_agent,
        os_icon: set_or_clear(patch.set_os_icon, patch.clear_os_icon),
        session_logging: patch.set_session_logging,
        transport: patch.set_transport,
        favorite: patch.favorite,
        identity_id: identity,
        has_password: patch.set_has_password,
    };
    RowEdit {
        id: managed.id,
        update,
        groups: patch.set_groups,
        password: password_action(patch.password, patch.clear_password),
        printed,
    }
}

/// The change that an edit of the metadata makes to a host's row.
pub open spec fn metadata_update(patch: HostEditPatch) -> HostUpdate {
    HostUpdate {
        label: patch.set_label,
        tags: patch.set_tags,
        notes: set_or_cleared(patch.set_notes, patch.clear_notes),
        environment: set_or_cleared(patch.set_environment, patch.clear_environment),
        session_logging: patch.set_session_logging,
        transport: patch.set_transport,
        favorite: patch.favorite,
        ..HostUpdate::nothing()
    }
}

/// Everything that an edit of a row's metadata stores: the change, then the groups,
/// then the identity.
#[derive(Debug)]
pub struct RowMetadataEdit {
    pub id: i64,
    pub update: HostUpdate,
    pub groups: Option<Vec<String>>,
    pub identity: Option<String>,
    /// The name that is printed in the end.
    pub printed: String,
}

/// Lay out an edit of the metadata of a host's row.
pub fn plan_row_metadata_edit(patch: HostEditPatch, managed: &ManagedHost) -> (r: RowMetadataEdit)
    ensures
        r.id == managed.id,
        r.update == metadata_update(patch),
        r.groups == patch.set_groups,
        r.identity == patch.set_identity,
        r.printed == managed.name,
{
    let update = HostUpdate {
        name: None,
        label: patch.set_label,
        address: None,
        port: None,
        username: None,
        tags: patch.set_tags,
        notes: set_or_clear(patch.set_notes, patch.clear_notes),
        environment: set_or_clear(patch.set_environment, patch.clear_environment),
        proxy_jump: None,
        remote_command: None,
        forward_agent: None,
        os_icon: None,
        session_logging: patch.set_session_logging,
        transport: patch.set_transport,
        favorite: patch.favorite,
        identity_id: None,
        has_password: None,
    };
    RowMetadataEdit {
        id: managed.id,
        update,
        groups: patch.set_groups,
        identity: patch.set_identity,
        printed: managed.name.clone(),
    }
}

/// The change that gives a host an identity and touches nothing else.
pub fn identity_update(identity_id: i64) -> (r: HostUpdate)
    ensures
        r == (HostUpdate { identity_id: Some(Some(identity_id)), ..HostUpdate::nothing() }),
{
    let mut update = HostUpdate::default();
    update.identity_id = Some(Some(identity_id));
    update
}

/// A text of the metadata after an edit: emptied, or what it was set to. Setting it
/// to nothing leaves it alone.
pub open spec fn kept_text(
    set: Option<Option<String>>,
    clear: bool,
    was: Option<String>,
) -> Option<String> {
    if clear {
        None
    } else if set is Some && set->0 is Some {
        set->0
    } else {
        was
    }
}

fn keep_text(set: Option<Option<String>>, clear: bool, was: Option<String>) -> (r: Option<String>)
    ensures
        r == kept_text(set, clear, was),
{
    if clear {
        None
    } else {
        match set {
            Some(Some(text)) => Some(text),
            _ => was,
        }
    }
}

/// What is kept of a host without a row after an edit of its metadata.
pub open spec fn metadata_after(patch: HostEditPatch, host: SshHost, meta: HostMetadata) -> HostMetadata {
    HostMetadata {
        host_name: host.name,
        tags: if patch.set_tags is Some {
            patch.set_tags->0
        } else {
            meta.tags
        },
        description: kept_text(patch.set_notes, patch.clear_notes, meta.description),
        environment: kept_text(patch.set_environment, patch.clear_environment, meta.environment),
        favorite: if patch.favorite is Some {
            patch.favorite->0
        } else {
            meta.favorite
        },
        last_connected: meta.last_connected,
        session_logging: if patch.set_session_logging is Some {
            patch.set_session_logging->0
        } else {
            meta.session_logging
        },
        transport: if patch.set_transport is Some {
            patch.set_transport->0
        } else {
            meta.transport
        },
    }
}

/// Apply an edit to the metadata of a host without a row.
pub fn edit_metadata(patch: HostEditPatch, host: &SshHost, meta: HostMetadata) -> (r: HostMetadata)
    ensures
        r == metadata_after(patch, *host, meta),
{
    HostMetadata {
        host_name: host.name.clone(),
        tags: match patch.set_tags {
            Some(tags) => tags,
            None => meta.tags,
        },
        description: keep_text(patch.set_notes, patch.clear_notes, meta.description),
        environment: keep_text(patch.set_environment, patch.clear_environment, meta.environment),
        favorite: match patch.favorite {
            Some(f) => f,
            None => meta.favorite,
        },
        last_connected: meta.last_connected,
        session_logging: match patch.set_session_logging {
            Some(l) => l,
            None => meta.session_logging,
        },
        transport: match patch.set_transport {
            Some(t) => t,
            None => meta.transport,
        },
    }
}

/// On an edit that stays within the metadata, the way through the metadata drops
/// nothing: it stores what the way through the whole row would store.
pub proof fn law_metadata_route_drops_nothing(
    patch: HostEditPatch,
    identity_id: Option<i64>,
    unique_name: Option<String>,
)
    requires
        patch@.only_metadata(),
        patch.set_has_password is Some ==> patch.password is Some,
    ensures
        metadata_update(patch) == row_update(patch, identity_id, unique_name),
        patch.set_groups is None,
        patch.set_identity is None,
        password_action_of(patch.password, patch.clear_password) == PasswordAction::Keep,
{
}

/// The condition on `set_has_password` that the other laws use holds of every edit
/// that is read from arguments.
pub proof fn law_parsed_password_is_announced(args: Seq<Seq<char>>)
    requires
        crate::cli::host::edit_of(args) is Ok,
    ensures
        crate::cli::host::edit_of(args)->Ok_0.set_has_password is Some <==>
            crate::cli::host::edit_of(args)->Ok_0.password is Some,
{
    reveal(crate::cli::host::options_of);
}

/// A host that is read from `ssh_config` never has the way it is reached changed:
/// what an edit of its row stores leaves name, address, port, jump host, agent
/// forwarding and remote command alone.
pub proof fn law_ssh_config_connection_untouched(
    patch: HostEditPatch,
    managed: ManagedHost,
    identity_id: Option<i64>,
    unique_name: Option<String>,
)
    requires
        managed.source == HostSource::SshConfig,
        edit_goes(patch, HostEntry::Managed(managed)) is Ok,
    ensures
        ({
            let update = row_update(patch, identity_id, unique_name);
            &&& update.name is None
            &&& update.address is None
            &&& update.port is None
            &&& update.proxy_jump is None
            &&& update.forward_agent is None
            &&& update.remote_command is None
        }),
{
}

/// After a host was given a row, no edit is refused for want of one.
pub proof fn law_materialized_has_row(patch: HostEditPatch, managed: ManagedHost)
    ensures
        edit_goes(patch, HostEntry::Managed(managed))
            != Err::<EditRoute, EditRefusal>(EditRefusal::NoRow),
        edit_starts(patch, HostEntry::Managed(managed)) == EditStart::Proceed,
{
}

/// The change of a row says of every field what the edit asks of it: it is set to what is
/// given, emptied where that is asked for, and left alone otherwise. A new name is the
/// free one that was found for it, and an identity is the one found for its name.
pub proof fn law_row_edit_field_by_field(
    patch: HostEditPatch,
    identity_id: Option<i64>,
    unique_name: Option<String>,
)
    ensures
        ({
            let u = row_update(patch, identity_id, unique_name);
            &&& u.label == patch.set_label && u.address == patch.set_address
            &&& u.port == patch.set_port && u.tags == patch.set_tags
            &&& u.forward_agent == patch.set_forward_agent
            &&& u.session_logging == patch.set_session_logging
            &&& u.transport == patch.set_transport && u.favorite == patch.favorite
            &&& u.has_password == patch.set_has_password
            &&& (patch.clear_username ==> u.username == Some(None::<String>))
            &&& (!patch.clear_username ==> u.username == patch.set_username)
            &&& (patch.clear_notes ==> u.notes == Some(None::<String>))
            &&& (!patch.clear_notes ==> u.notes == patch.set_notes)
            &&& (patch.clear_environment ==> u.environment == Some(None::<String>))
            &&& (!patch.clear_environment ==> u.environment == patch.set_environment)
            &&& (patch.clear_proxy_jump ==> u.proxy_jump == Some(None::<String>))
            &&& (!patch.clear_proxy_jump ==> u.proxy_jump == patch.set_proxy_jump)
            &&& (patch.clear_remote_command ==> u.remote_command == Some(None::<String>))
            &&& (!patch.clear_remote_command ==> u.remote_command == patch.set_remote_command)
            &&& (patch.clear_os_icon ==> u.os_icon == Some(None::<String>))
            &&& (!patch.clear_os_icon ==> u.os_icon == patch.set_os_icon)
            &&& (patch.set_name is None ==> u.name is None)
            &&& (patch.set_name is Some && unique_name is Some ==> u.name == unique_name)
            &&& (patch.set_name is Some && unique_name is None ==> u.name == patch.set_name)
            &&& (patch.clear_identity ==> u.identity_id == Some(None::<i64>))
            &&& (!patch.clear_identity && patch.set_identity is Some && identity_id is Some
                ==> u.identity_id == Some(identity_id))
            &&& (!patch.clear_identity && (patch.set_identity is None || identity_id is None)
                ==> u.identity_id is None)
        }),
{
}

/// What `host edit` stores in a row is what its arguments say: every option that is given
/// sets its own field to its own value, a flag that empties a field wins over setting
/// it, and a field without either is left alone.
pub proof fn law_edit_stores_what_is_asked(
    items: Seq<Arg>,
    patch: HostEditPatch,
    identity_id: Option<i64>,
    unique_name: Option<String>,
)
    requires
        well_spelled(items, edit_options(), edit_flags()),
        edit_of(spelled(items)) == Ok::<EditView, EditError>(patch@),
    ensures
        ({
            let u = row_update(patch, identity_id, unique_name);
            let port = asked(items, "--set-port"@);
            let log = asked(items, "--set-session-log"@);
            let transport = asked(items, "--set-transport"@);
            let tags = asked(items, "--set-tags"@);
            &&& Some(patch.name@) == asked(items, "--name"@)
            &&& text_opt(u.address) == asked(items, "--set-address"@)
            &&& (u.port is Some <==> port is Some)
            &&& (port is Some ==> u.port == port_number(port->0))
            &&& text_opt2(u.label) == field_of(asked(items, "--set-label"@))
            &&& (u.session_logging is Some <==> log is Some)
            &&& (log is Some ==> u.session_logging == session_logging_of(log->0))
            &&& (u.transport is Some <==> transport is Some)
            &&& (transport is Some ==> u.transport == transport_of(transport->0))
            &&& (u.tags is Some <==> tags is Some)
            &&& (tags is Some ==> texts(u.tags->0@) == tags_of(tags->0))
            &&& (u.forward_agent == Some(false) <==> told(items, "--no-forward-agent"@))
            &&& (u.forward_agent == Some(true) <==> told(items, "--set-forward-agent"@) && !told(
                items,
                "--no-forward-agent"@,
            ))
            &&& (u.favorite == Some(false) <==> told(items, "--no-favorite"@))
            &&& (u.favorite == Some(true) <==> told(items, "--favorite"@) && !told(
                items,
                "--no-favorite"@,
            ))
            &&& (u.has_password == Some(true) <==> told(items, "--set-password-stdin"@))
            &&& (u.has_password is Some <==> told(items, "--set-password-stdin"@))
            &&& (u.name is Some <==> asked(items, "--set-name"@) is Some)
            &&& (u.name is Some && unique_name is None ==> text_opt(u.name) == asked(
                items,
                "--set-name"@,
            ))
            &&& (u.name is Some && unique_name is Some ==> u.name == unique_name)
            &&& (told(items, "--clear-identity"@) ==> u.identity_id == Some(None::<i64>))
            &&& (!told(items, "--clear-identity"@) && asked(items, "--set-identity"@) is Some
                && identity_id is Some ==> u.identity_id == Some(identity_id))
            &&& (!told(items, "--clear-identity"@) && asked(items, "--set-identity"@) is None
                ==> u.identity_id is None)
            &&& (told(items, "--clear-username"@) ==> u.username == Some(None::<String>))
            &&& (!told(items, "--clear-username"@) ==> text_opt2(u.username) == field_of(
                asked(items, "--set-username"@),
            ))
            &&& (told(items, "--clear-notes"@) ==> u.notes == Some(None::<String>))
            &&& (!told(items, "--clear-notes"@) ==> text_opt2(u.notes) == field_of(
                asked(items, "--set-notes"@),
            ))
            &&& (told(items, "--clear-environment"@) ==> u.environment == Some(None::<String>))
            &&& (!told(items, "--clear-environment"@) ==> text_opt2(u.environment) == field_of(
                asked(items, "--set-environment"@),
            ))
            &&& (told(items, "--clear-proxy-jump"@) ==> u.proxy_jump == Some(None::<String>))
            &&& (!told(items, "--clear-proxy-jump"@) ==> text_opt2(u.proxy_jump) == field_of(
                asked(items, "--set-proxy-jump"@),
            ))
            &&& (told(items, "--clear-remote-command"@) ==> u.remote_command == Some(None::<String>))
            &&& (!told(items, "--clear-remote-command"@) ==> text_opt2(u.remote_command) == field_of(
                asked(items, "--set-remote-command"@),
            ))
            &&& (told(items, "--clear-os-icon"@) ==> u.os_icon == Some(None::<String>))
            &&& (!told(items, "--clear-os-icon"@) ==> text_opt2(u.os_icon) == field_of(
                asked(items, "--set-os-icon"@),
            ))
            &&& (patch.set_groups is Some <==> asked_all(items, "--set-group"@).len() > 0)
            &&& (patch.set_groups is Some ==> texts(patch.set_groups->0@) == asked_all(
                items,
                "--set-group"@,
            ))
        }),
{
    law_edit_is_read(items);
    law_row_edit_field_by_field(patch, identity_id, unique_name);
}

/// A change of a row is never empty where the edit asks for anything that a row holds.
pub proof fn law_row_edit_changes_something(
    patch: HostEditPatch,
    identity_id: Option<i64>,
    unique_name: Option<String>,
)
    requires
        patch@.asks_anything(),
        patch.set_identity is Some ==> identity_id is Some,
    ensures
        row_update(patch, identity_id, unique_name) == HostUpdate::nothing() ==> patch.set_groups
            is Some || patch.password is Some || patch.clear_password,
        patch@.changes_connection() ==> row_update(patch, identity_id, unique_name)
            != HostUpdate::nothing(),
        patch@.touches_managed() ==> row_update(patch, identity_id, unique_name)
            != HostUpdate::nothing(),
{
}

/// An edit of the metadata of a row sets what is given of it, and nothing else of the row.
pub proof fn law_metadata_edit_field_by_field(patch: HostEditPatch)
    ensures
        ({
            let u = metadata_update(patch);
            &&& u.label == patch.set_label && u.tags == patch.set_tags
            &&& u.session_logging == patch.set_session_logging
            &&& u.transport == patch.set_transport && u.favorite == patch.favorite
            &&& (patch.clear_notes ==> u.notes == Some(None::<String>))
            &&& (!patch.clear_notes ==> u.notes == patch.set_notes)
            &&& (patch.clear_environment ==> u.environment == Some(None::<String>))
            &&& (!patch.clear_environment ==> u.environment == patch.set_environment)
            &&& u.name is None && u.address is None && u.port is None && u.username is None
            &&& u.proxy_jump is None && u.remote_command is None && u.forward_agent is None
            &&& u.os_icon is None && u.identity_id is None && u.has_password is None
        }),
{
}

/// What is kept of a host without a row after an edit: what is given where it is given,
/// nothing where a text is emptied, and otherwise what was kept before. The time of the
/// last connection stays, and the name is the host's own.
pub proof fn law_kept_field_by_field(patch: HostEditPatch, host: SshHost, meta: HostMetadata)
    ensures
        ({
            let m = metadata_after(patch, host, meta);
            &&& m.host_name == host.name && m.last_connected == meta.last_connected
            &&& (patch.set_tags is Some ==> m.tags == patch.set_tags->0)
            &&& (patch.set_tags is None ==> m.tags == meta.tags)
            &&& (patch.favorite is Some ==> m.favorite == patch.favorite->0)
            &&& (patch.favorite is None ==> m.favorite == meta.favorite)
            &&& (patch.set_session_logging is Some ==> m.session_logging
                == patch.set_session_logging->0)
            &&& (patch.set_session_logging is None ==> m.session_logging == meta.session_logging)
            &&& (patch.set_transport is Some ==> m.transport == patch.set_transport->0)
            &&& (patch.set_transport is None ==> m.transport == meta.transport)
            &&& (patch.clear_notes ==> m.description is None)
            &&& (!patch.clear_notes && patch.set_notes is Some && patch.set_notes->0 is Some
                ==> m.description == patch.set_notes->0)
            &&& (!patch.clear_notes && (patch.set_notes is None || patch.set_notes->0 is None)
                ==> m.description == meta.description)
            &&& (patch.clear_environment ==> m.environment is None)
            &&& (!patch.clear_environment && patch.set_environment is Some
                && patch.set_environment->0 is Some ==> m.environment
                == patch.set_environment->0)
            &&& (!patch.clear_environment && (patch.set_environment is None
                || patch.set_environment->0 is None) ==> m.environment == meta.environment)
        }),
{
}

/// Where an edit goes: a host without a row is given one first exactly where the edit
/// needs it; a host of `ssh_config` is refused exactly where the edit would change how it
/// is reached; a launcher host is never refused.
pub proof fn law_edit_goes_where_it_may(patch: HostEditPatch, entry: HostEntry)
    ensures
        edit_starts(patch, entry) == EditStart::Materialize <==> entry is Legacy
            && patch@.needs_row(),
        entry is Managed && entry->Managed_0.source == HostSource::Launcher ==> edit_goes(
            patch,
            entry,
        ) is Ok,
        edit_goes(patch, entry) == Err::<EditRoute, EditRefusal>(EditRefusal::ReadOnly) <==> entry
            is Managed && entry->Managed_0.source == HostSource::SshConfig
            && patch@.changes_connection(),
        edit_goes(patch, entry) == Err::<EditRoute, EditRefusal>(EditRefusal::NoRow) <==> entry
            is Legacy && !patch@.only_metadata(),
        edit_goes(patch, entry) == Ok::<EditRoute, EditRefusal>(EditRoute::Metadata) <==> entry
            is Legacy && patch@.only_metadata(),
        entry is Managed && edit_goes(patch, entry) is Ok ==> edit_goes(patch, entry)->Ok_0 == (
        if patch@.only_metadata() {
            EditRoute::RowMetadata(entry->Managed_0.id)
        } else {
            EditRoute::Row(entry->Managed_0.id)
        }),
{
}

/// Which options change how a host is reached, which need a row, and which stay within
/// what is kept of every host.
pub proof fn law_edit_kinds(edit: EditView)
    ensures
        edit.changes_connection() <==> edit.set_name is Some || edit.set_address is Some
            || edit.set_port is Some || edit.set_proxy_jump is Some || edit.clear_proxy_jump
            || edit.set_forward_agent is Some || edit.set_remote_command is Some
            || edit.clear_remote_command,
        edit.needs_row() <==> edit.changes_connection() || edit.set_username is Some
            || edit.clear_username || edit.set_os_icon is Some || edit.clear_os_icon
            || edit.set_groups is Some || edit.set_identity is Some || edit.clear_identity
            || edit.set_label is Some,
        edit.only_metadata() <==> !edit.needs_row() && edit.password is None
            && !edit.clear_password,
        edit.only_metadata() && edit.asks_anything() ==> edit.set_tags is Some || edit.set_notes
            is Some || edit.clear_notes || edit.set_environment is Some || edit.clear_environment
            || edit.set_session_logging is Some || edit.set_transport is Some || edit.favorite
            is Some,
        edit.needs_row() || edit.password is Some || edit.clear_password || edit.set_tags is Some
            || edit.set_notes is Some || edit.clear_notes || edit.set_environment is Some
            || edit.clear_environment || edit.set_session_logging is Some || edit.set_transport
            is Some || edit.favorite is Some ==> edit.asks_anything(),
{
}

/// A password that was read is stored, one that is to be cleared is deleted where none is
/// given, and otherwise the stored one is kept.
pub proof fn law_password_is_stored_or_deleted(password: Option<NewPassword>, clear: bool)
    ensures
        password is Some && password->0 is Text ==> password_action_of(password, clear)
            == PasswordAction::Store(password->0->Text_0),
        password is None && clear ==> password_action_of(password, clear) == PasswordAction::Delete,
        password is None && !clear ==> password_action_of(password, clear) == PasswordAction::Keep,
        password is Some && password->0 is Stdin ==> password_action_of(password, clear)
            == PasswordAction::Keep,
{
}

/// A refusal that has to do with the host itself names it in quotes behind the word
/// `host`, and says what is wrong behind it; one that holds of every host of a settings
/// file does not depend on the name.
pub proof fn law_refusals_are_told(name: Seq<char>)
    ensures
        ({
            let gone = EditRefusal::NotMaterialized.text(name);
            let bare = EditRefusal::NoRow.text(name);
            let n = name.len() as int;
            &&& gone.take(6) == seq!['h', 'o', 's', 't', ' ', '\'']
            &&& bare.take(6) == gone.take(6)
            &&& gone.subrange(6, 6 + n) == name
            &&& bare.subrange(6, 6 + n) == name
            &&& gone.skip(6 + n) == "' could not be materialized"@
            &&& bare.skip(6 + n) == "' has no managed row for connection edits"@
            &&& EditRefusal::ReadOnly.text(name)
                == "connection fields are read-only for ssh_config hosts"@
        }),
{
    reveal_strlit("host '");
    let n = name.len() as int;
    let gone = EditRefusal::NotMaterialized.text(name);
    let bare = EditRefusal::NoRow.text(name);
    assert(gone.take(6) =~= seq!['h', 'o', 's', 't', ' ', '\'']);
    assert(bare.take(6) =~= gone.take(6));
    assert(gone.subrange(6, 6 + n) =~= name);
    assert(bare.subrange(6, 6 + n) =~= name);
    assert(gone.skip(6 + n) =~= "' could not be materialized"@);
    assert(bare.skip(6 + n) =~= "' has no managed row for connection edits"@);
}

} // verus!
