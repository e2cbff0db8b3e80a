//! `host edit` from its beginning to its end.
//!
//! The caller looks things up and stores what it is told to. After each of these it
//! reports what came of it and is told what to do next. An error of the database
//! ends the run; the caller reports it.

use vstd::prelude::*;

use crate::cli::commands::{first_failure, resolve_group_ids};
use crate::cli::edit::{
    edit_goes, edit_metadata, edit_starts, identity_update, metadata_after, metadata_update,
    password_action_of, plan_row_edit, plan_row_metadata_edit, route_edit, row_update, start_edit,
    EditRefusal, EditRoute, EditStart, PasswordAction,
};
use crate::cli::host::HostEditPatch;
use crate::model::{HostEntry, HostMetadata, HostUpdate, ManagedHost};

verus! {

/// What is left to do once the change to a host's row is stored.
#[derive(Debug)]
pub struct AfterUpdate {
    pub id: i64,
    pub groups: Option<Vec<String>>,
    /// The name of an identity that is given to the host by itself.
    pub identity: Option<String>,
    pub password: PasswordAction,
    pub printed: String,
}

/// What an edit waits for.
#[derive(Debug)]
pub enum EditRun {
    /// The host of the name.
    Finding { patch: HostEditPatch },
    /// The host to be given a row.
    Materializing { patch: HostEditPatch },
    /// The host of the name, once it was given a row.
    FindingAgain { patch: HostEditPatch },
    /// The identity of the name asked for.
    FindingIdentity { patch: HostEditPatch, managed: ManagedHost },
    /// A free name for the one asked for.
    FindingName { patch: HostEditPatch, managed: ManagedHost, identity_id: Option<i64> },
    /// The change to the host's row to be stored.
    Updating { left: AfterUpdate },
    /// The groups of the names asked for.
    FindingGroups { left: AfterUpdate },
    /// The host to be put into its groups.
    Grouping { left: AfterUpdate },
    /// The identity that the host is given by itself.
    FindingLastIdentity { left: AfterUpdate },
    /// The password to be stored or deleted, or that it could not be.
    Securing { printed: String },
    /// What was stored to be taken in.
    Storing { printed: String },
    /// The hosts to be loaded anew.
    Reloading { printed: String },
    /// Nothing.
    Done,
}

/// What came of the outside work.
#[derive(Debug)]
pub enum EditEvent {
    /// The host was found.
    Found(HostEntry),
    /// The host was given a row, or could not be.
    Materialized(bool),
    /// The identity was found.
    Identity(i64),
    /// A free name was found.
    FreeName(String),
    /// The groups were looked up.
    Groups(Vec<Result<i64, String>>),
    /// It was done.
    Finished,
}

/// The outside work that comes next.
#[derive(Debug)]
pub enum EditAction {
    /// Give the host a row, from what `ssh` resolves.
    Materialize,
    /// Load the hosts anew and find the host again.
    FindAgain,
    FindIdentity(String),
    /// Find a free name, which may be the one that the host of this row has.
    FindFreeName { asked: String, except: i64 },
    /// Say that the name was taken, if it was, then store the change.
    Update { id: i64, update: HostUpdate, name_taken: bool },
    FindGroups(Vec<String>),
    SetGroups { id: i64, groups: Vec<i64> },
    StorePassword { id: i64, password: String },
    DeletePassword { id: i64 },
    StoreMetadata(HostMetadata),
    Reload,
    /// Print the name; nothing comes after that.
    Print(String),
    Refuse(EditRefusal),
    /// A group was not found; nothing comes after that.
    NoGroup(String),
    /// What was reported does not fit what was waited for.
    Unexpected,
}

/// What follows once a host is found that may be edited as it is.
pub open spec fn edit_found(patch: HostEditPatch, entry: HostEntry) -> (EditRun, EditAction) {
    match edit_goes(patch, entry) {
        Err(e) => (EditRun::Done, EditAction::Refuse(e)),
        Ok(EditRoute::Metadata) => (
            EditRun::Storing { printed: entry->host.name },
            EditAction::StoreMetadata(metadata_after(patch, entry->host, entry->meta)),
        ),
        Ok(EditRoute::RowMetadata(id)) => (
            EditRun::Updating {
                left: AfterUpdate {
                    id,
                    groups: patch.set_groups,
                    identity: patch.set_identity,
                    password: PasswordAction::Keep,
                    printed: entry->Managed_0.name,
                },
            },
            EditAction::Update { id, update: metadata_update(patch), name_taken: false },
        ),
        Ok(EditRoute::Row(id)) => if patch.set_identity is Some {
            (
                EditRun::FindingIdentity { patch, managed: entry->Managed_0 },
                EditAction::FindIdentity(patch.set_identity->0),
            )
        } else {
            edit_identified(patch, entry->Managed_0, None)
        },
    }
}

/// What follows once the identity of an edit is known.
pub open spec fn edit_identified(
    patch: HostEditPatch,
    managed: ManagedHost,
    identity_id: Option<i64>,
) -> (EditRun, EditAction) {
    if patch.set_name is Some {
        (
            EditRun::FindingName { patch, managed, identity_id },
            EditAction::FindFreeName { asked: patch.set_name->0, except: managed.id },
        )
    } else {
        edit_named(patch, managed, identity_id, None)
    }
}

/// Whether the name that was found is not the one asked for.
pub open spec fn other_name(patch: HostEditPatch, free_name: Option<String>) -> bool {
    patch.set_name is Some && free_name is Some && patch.set_name->0@ != free_name->0@
}

/// What is said where the name asked for was taken.
pub open spec fn other_name_text(unique: Seq<char>) -> Seq<char> {
    "name taken, using '"@ + unique + "'"@
}

/// What is said where the name asked for was taken.
pub fn other_name_message(unique: &str) -> (r: String)
    ensures
        r@ == other_name_text(unique@),
{
    let mut text = "name taken, using '".to_owned();
    text.push_str(unique);
    text.push_str("'");
    text
}

/// What follows once the name of an edit is known: its change is stored.
pub open spec fn edit_named(
    patch: HostEditPatch,
    managed: ManagedHost,
    identity_id: Option<i64>,
    free_name: Option<String>,
) -> (EditRun, EditAction) {
    let update = row_update(patch, identity_id, free_name);
    (
        EditRun::Updating {
            left: AfterUpdate {
                id: managed.id,
                groups: patch.set_groups,
                identity: None,
                password: password_action_of(patch.password, patch.clear_password),
                printed: if update.name is Some {
                    update.name->0
                } else {
                    managed.name
                },
            },
        },
        EditAction::Update { id: managed.id, update, name_taken: other_name(patch, free_name) },
    )
}

/// What follows once the groups are settled.
pub open spec fn edit_grouped(left: AfterUpdate) -> (EditRun, EditAction) {
    if left.identity is Some {
        (
            EditRun::FindingLastIdentity { left },
            EditAction::FindIdentity(left.identity->0),
        )
    } else {
        edit_secured(left)
    }
}

/// What is done with the password in the end.
pub open spec fn edit_secured(left: AfterUpdate) -> (EditRun, EditAction) {
    match left.password {
        PasswordAction::Store(password) => (
            EditRun::Securing { printed: left.printed },
            EditAction::StorePassword { id: left.id, password },
        ),
        PasswordAction::Delete => (
            EditRun::Securing { printed: left.printed },
            EditAction::DeletePassword { id: left.id },
        ),
        PasswordAction::Keep => (EditRun::Reloading { printed: left.printed }, EditAction::Reload),
    }
}

/// Whether a step of an edit is the right one: from what was waited for and what was
/// reported, what is waited for next and the outside work.
pub open spec fn edit_stepped(
    run: EditRun,
    event: EditEvent,
    then: EditRun,
    action: EditAction,
) -> bool {
    match (run, event) {
        (EditRun::Finding { patch }, EditEvent::Found(entry)) => match edit_starts(patch, entry) {
            EditStart::Materialize => then == (EditRun::Materializing { patch })
                && action is Materialize,
            EditStart::Proceed => (then, action) == edit_found(patch, entry),
        },
        (EditRun::Materializing { patch }, EditEvent::Materialized(done)) => if done {
            then == (EditRun::FindingAgain { patch }) && action is FindAgain
        } else {
            then is Done && action == EditAction::Refuse(EditRefusal::NotMaterialized)
        },
        (EditRun::FindingAgain { patch }, EditEvent::Found(entry)) => (then, action)
            == edit_found(patch, entry),
        (EditRun::FindingIdentity { patch, managed }, EditEvent::Identity(id)) => (then, action)
            == edit_identified(patch, managed, Some(id)),
        (
            EditRun::FindingName { patch, managed, identity_id },
            EditEvent::FreeName(name),
        ) => (then, action) == edit_named(patch, managed, identity_id, Some(name)),
        (EditRun::Updating { left }, EditEvent::Finished) => match left.groups {
            Some(names) => then == (EditRun::FindingGroups { left }) && (
            action matches EditAction::FindGroups(asked) && crate::text::texts(asked@)
                == crate::text::texts(names@)),
            None => (then, action) == edit_grouped(left),
        },
        (EditRun::FindingGroups { left }, EditEvent::Groups(found)) => {
            let failure = first_failure(found@);
            if failure < found@.len() {
                then is Done && (action matches EditAction::NoGroup(why) && Err::<i64, String>(why)
                    == found@[failure])
            } else {
                then == (EditRun::Grouping { left }) && (action matches EditAction::SetGroups {
                    id,
                    groups,
                } && id == left.id && groups@.len() == found@.len() && forall|i: int|
                    0 <= i < groups@.len() ==> Ok::<i64, String>(#[trigger] groups@[i])
                        == found@[i])
            }
        },
        (EditRun::Grouping { left }, EditEvent::Finished) => (then, action) == edit_grouped(left),
        (EditRun::FindingLastIdentity { left }, EditEvent::Identity(identity)) => then == (
        EditRun::Storing { printed: left.printed }) && action == (EditAction::Update {
            id: left.id,
            update: HostUpdate { identity_id: Some(Some(identity)), ..HostUpdate::nothing() },
            name_taken: false,
        }),
        (EditRun::Securing { printed }, EditEvent::Finished) => then == (EditRun::Reloading { printed })
            && action is Reload,
        (EditRun::Storing { printed }, EditEvent::Finished) => then == (EditRun::Reloading { printed })
            && action is Reload,
        (EditRun::Reloading { printed }, EditEvent::Finished) => then is Done && action
            == EditAction::Print(printed),
        _ => then == run && action is Unexpected,
    }
}

fn found(patch: HostEditPatch, entry: HostEntry) -> (r: (EditRun, EditAction))
    ensures
        r == edit_found(patch, entry),
{
    match route_edit(&patch, &entry) {
        Err(e) => (EditRun::Done, EditAction::Refuse(e)),
        Ok(EditRoute::Metadata) => {
            match entry {
                HostEntry::Legacy { host, meta } => {
                    let after = edit_metadata(patch, &host, meta);
                    (EditRun::Storing { printed: host.name }, EditAction::StoreMetadata(after))
                },
                HostEntry::Managed(_) => (EditRun::Done, EditAction::Unexpected),
            }
        },
        Ok(EditRoute::RowMetadata(_)) => {
            match entry {
                HostEntry::Managed(managed) => {
                    let plan = plan_row_metadata_edit(patch, &managed);
                    (
                        EditRun::Updating {
                            left: AfterUpdate {
                                id: plan.id,
                                groups: plan.groups,
                                identity: plan.identity,
                                password: PasswordAction::Keep,
                                printed: plan.printed,
                            },
                        },
                        EditAction::Update {
                            id: plan.id,
                            update: plan.update,
                            name_taken: false,
                        },
                    )
                },
                HostEntry::Legacy { host: _, meta: _ } => (EditRun::Done, EditAction::Unexpected),
            }
        },
        Ok(EditRoute::Row(_)) => {
            match entry {
                HostEntry::Managed(managed) => {
                    let asked = match &patch.set_identity {
                        Some(name) => Some(name.clone()),
                        None => None,
                    };
                    match asked {
                        Some(name) => (
                            EditRun::FindingIdentity { patch, managed },
                            EditAction::FindIdentity(name),
                        ),
                        None => identified(patch, managed, None),
                    }
                },
                HostEntry::Legacy { host: _, meta: _ } => (EditRun::Done, EditAction::Unexpected),
            }
        },
    }
}

fn identified(patch: HostEditPatch, managed: ManagedHost, identity_id: Option<i64>) -> (r: (
    EditRun,
    EditAction,
))
    ensures
        r == edit_identified(patch, managed, identity_id),
{
    let asked = match &patch.set_name {
        Some(name) => Some(name.clone()),
        None => None,
    };
    match asked {
        Some(name) => {
            let except: i64 = managed.id;
            (
                EditRun::FindingName { patch, managed, identity_id },
                EditAction::FindFreeName { asked: name, except },
            )
        },
        None => named(patch, managed, identity_id, None),
    }
}

fn named(
    patch: HostEditPatch,
    managed: ManagedHost,
    identity_id: Option<i64>,
    free_name: Option<String>,
) -> (r: (EditRun, EditAction))
    ensures
        r == edit_named(patch, managed, identity_id, free_name),
{
    let name_taken: bool = match (&patch.set_name, &free_name) {
        (Some(asked), Some(found)) => !str::eq(asked.as_str(), found.as_str()),
        _ => false,
    };
    let plan = plan_row_edit(patch, &managed, identity_id, free_name);
    (
        EditRun::Updating {
            left: AfterUpdate {
                id: plan.id,
                groups: plan.groups,
                identity: None,
                password: plan.password,
                printed: plan.printed,
            },
        },
        EditAction::Update { id: plan.id, update: plan.update, name_taken },
    )
}

fn grouped(left: AfterUpdate) -> (r: (EditRun, EditAction))
    ensures
        r == edit_grouped(left),
{
    let asked = match &left.identity {
        Some(name) => Some(name.clone()),
        None => None,
    };
    match asked {
        Some(name) => (EditRun::FindingLastIdentity { left }, EditAction::FindIdentity(name)),
        None => {
            match left.password {
                PasswordAction::Store(password) => (
                    EditRun::Securing { printed: left.printed },
                    EditAction::StorePassword { id: left.id, password },
                ),
                PasswordAction::Delete => (
                    EditRun::Securing { printed: left.printed },
                    EditAction::DeletePassword { id: left.id },
                ),
                PasswordAction::Keep => (
                    EditRun::Reloading { printed: left.printed },
                    EditAction::Reload,
                ),
            }
        },
    }
}

/// Begin an edit: the host of its name is to be found.
pub fn begin_edit(patch: HostEditPatch) -> (r: EditRun)
    ensures
        r == (EditRun::Finding { patch }),
{
    EditRun::Finding { patch }
}

/// Go on with an edit after the outside work that was waited for, and say what comes
/// next.
pub fn cmd_edit(run: EditRun, event: EditEvent) -> (r: (EditRun, EditAction))
    ensures
        edit_stepped(run, event, r.0, r.1),
{
    match (run, event) {
        (EditRun::Finding { patch }, EditEvent::Found(entry)) => {
            match start_edit(&patch, &entry) {
                EditStart::Materialize => (
                    EditRun::Materializing { patch },
                    EditAction::Materialize,
                ),
                EditStart::Proceed => found(patch, entry),
            }
        },
        (EditRun::Materializing { patch }, EditEvent::Materialized(done)) => {
            if done {
                (EditRun::FindingAgain { patch }, EditAction::FindAgain)
            } else {
                (EditRun::Done, EditAction::Refuse(EditRefusal::NotMaterialized))
            }
        },
        (EditRun::FindingAgain { patch }, EditEvent::Found(entry)) => found(patch, entry),
        (EditRun::FindingIdentity { patch, managed }, EditEvent::Identity(id)) => identified(
            patch,
            managed,
            Some(id),
        ),
        (
            EditRun::FindingName { patch, managed, identity_id },
            EditEvent::FreeName(name),
        ) => named(patch, managed, identity_id, Some(name)),
        (EditRun::Updating { left }, EditEvent::Finished) => {
            let asked = match &left.groups {
                Some(names) => Some(crate::text::clone_texts(names)),
                None => None,
            };
            match asked {
                Some(names) => (EditRun::FindingGroups { left }, EditAction::FindGroups(names)),
                None => grouped(left),
            }
        },
        (EditRun::FindingGroups { left }, EditEvent::Groups(found)) => {
            match resolve_group_ids(&found) {
                Ok(groups) => {
                    let id: i64 = left.id;
                    (EditRun::Grouping { left }, EditAction::SetGroups { id, groups })
                },
                Err(why) => (EditRun::Done, EditAction::NoGroup(why)),
            }
        },
        (EditRun::Grouping { left }, EditEvent::Finished) => grouped(left),
        (EditRun::FindingLastIdentity { left }, EditEvent::Identity(identity)) => (
            EditRun::Storing { printed: left.printed },
            EditAction::Update { id: left.id, update: identity_update(identity), name_taken: false },
        ),
        (EditRun::Securing { printed }, EditEvent::Finished) => (
            EditRun::Reloading { printed },
            EditAction::Reload,
        ),
        (EditRun::Storing { printed }, EditEvent::Finished) => (
            EditRun::Reloading { printed },
            EditAction::Reload,
        ),
        (EditRun::Reloading { printed }, EditEvent::Finished) => (
            EditRun::Done,
            EditAction::Print(printed),
        ),
        (run, _) => (run, EditAction::Unexpected),
    }
}

/// How far an edit is from its end.
pub open spec fn edit_left(run: EditRun) -> nat {
    match run {
        EditRun::Finding { patch } => 11,
        EditRun::Materializing { patch } => 10,
        EditRun::FindingAgain { patch } => 9,
        EditRun::FindingIdentity { patch, managed } => 8,
        EditRun::FindingName { patch, managed, identity_id } => 7,
        EditRun::Updating { left } => 6,
        EditRun::FindingGroups { left } => 5,
        EditRun::Grouping { left } => 4,
        EditRun::FindingLastIdentity { left } => 3,
        EditRun::Securing { printed } => 2,
        EditRun::Storing { printed } => 2,
        EditRun::Reloading { printed } => 1,
        EditRun::Done => 0,
    }
}

/// Every report that fits brings an edit nearer to its end, and one that does not fit
/// changes nothing.
pub proof fn law_edit_ends(run: EditRun, event: EditEvent, then: EditRun, action: EditAction)
    requires
        edit_stepped(run, event, then, action),
    ensures
        action is Unexpected ==> then == run,
        !(action is Unexpected) ==> edit_left(then) < edit_left(run),
        action is Print || action is Refuse || action is NoGroup ==> then is Done,
{
}

/// An edit is refused before any of its changes is stored: a run can be refused only
/// while it has done no more than give the host a row.
pub proof fn law_edits_are_refused_early(
    run: EditRun,
    event: EditEvent,
    then: EditRun,
    action: EditAction,
)
    requires
        edit_stepped(run, event, then, action),
        action is Refuse,
    ensures
        run is Finding || run is Materializing || run is FindingAgain,
{
}

/// What is said where the name asked for was taken names the one that is used.
pub proof fn law_other_name_is_said(unique: Seq<char>, patch: HostEditPatch, free_name: String)
    ensures
        other_name_text(unique) == "name taken, using '"@ + unique + "'"@,
        patch.set_name is Some ==> (other_name(patch, Some(free_name)) <==> patch.set_name->0@
            != free_name@),
        patch.set_name is None ==> !other_name(patch, Some(free_name)),
{
}

/// An edit of a host that is found: a host without a row is given one first exactly where
/// the edit needs it, a refusal is said, and otherwise the edit goes on with the host's
/// own row or with what is kept of it.
pub proof fn law_edit_begins_where_it_may(
    run: EditRun,
    event: EditEvent,
    then: EditRun,
    action: EditAction,
)
    requires
        edit_stepped(run, event, then, action),
        event is Found,
        run is Finding || run is FindingAgain,
    ensures
        ({
            let patch = if run is Finding {
                run->Finding_patch
            } else {
                run->FindingAgain_patch
            };
            let entry = event->Found_0;
            let asks_row = run is Finding && entry is Legacy && patch@.needs_row();
            &&& (asks_row ==> action is Materialize && then == (EditRun::Materializing { patch }))
            &&& (!asks_row && edit_goes(patch, entry) is Err ==> action == EditAction::Refuse(
                edit_goes(patch, entry)->Err_0,
            ) && then is Done)
            &&& (!asks_row && entry is Legacy && patch@.only_metadata() ==> {
                let m = action->StoreMetadata_0;
                &&& action is StoreMetadata && then == (EditRun::Storing {
                    printed: entry->host.name,
                })
                &&& m.host_name == entry->host.name && m.last_connected
                    == entry->meta.last_connected
                &&& (patch.set_tags is Some ==> m.tags == patch.set_tags->0)
                &&& (patch.set_tags is None ==> m.tags == entry->meta.tags)
                &&& (patch.favorite is Some ==> m.favorite == patch.favorite->0)
                &&& (patch.set_transport is Some ==> m.transport == patch.set_transport->0)
                &&& (patch.set_session_logging is Some ==> m.session_logging
                    == patch.set_session_logging->0)
                &&& (patch.clear_notes ==> m.description is None)
                &&& (patch.clear_environment ==> m.environment is None)
            })
            &&& (entry is Managed && patch@.only_metadata() ==> {
                let u = action->update;
                &&& action is Update && action->Update_id == entry->Managed_0.id
                &&& !action->name_taken && then is Updating
                &&& u.tags == patch.set_tags && u.favorite == patch.favorite
                &&& u.transport == patch.set_transport
                &&& u.session_logging == patch.set_session_logging
                &&& then->Updating_left.id == entry->Managed_0.id
                &&& then->Updating_left.printed == entry->Managed_0.name
                &&& then->Updating_left.password == PasswordAction::Keep
            })
            &&& (entry is Managed && !patch@.only_metadata() && edit_goes(patch, entry) is Ok
                && patch.set_identity is Some ==> action == EditAction::FindIdentity(
                patch.set_identity->0,
            ) && then == (EditRun::FindingIdentity { patch, managed: entry->Managed_0 }))
            &&& (entry is Managed && !patch@.only_metadata() && edit_goes(patch, entry) is Ok
                && patch.set_identity is None && patch.set_name is Some ==> action == (
            EditAction::FindFreeName {
                asked: patch.set_name->0,
                except: entry->Managed_0.id,
            }) && then == (EditRun::FindingName {
                patch,
                managed: entry->Managed_0,
                identity_id: None,
            }))
            &&& (entry is Managed && !patch@.only_metadata() && edit_goes(patch, entry) is Ok
                && patch.set_identity is None && patch.set_name is None ==> action is Update
                && stores_row(action, then, patch, entry->Managed_0, None, None))
        }),
{
}

/// Whether a step stores an edit in a host's row, field by field, and what is left to do
/// after it is right.
pub open spec fn stores_row(
    action: EditAction,
    then: EditRun,
    patch: HostEditPatch,
    managed: ManagedHost,
    identity_id: Option<i64>,
    free_name: Option<String>,
) -> bool {
    let u = action->update;
    let left = then->Updating_left;
    &&& action is Update && then is Updating
    &&& action->Update_id == managed.id && left.id == managed.id
    &&& u.address == patch.set_address && u.port == patch.set_port && u.label == patch.set_label
    &&& u.tags == patch.set_tags && u.forward_agent == patch.set_forward_agent
    &&& u.session_logging == patch.set_session_logging && u.transport == patch.set_transport
    &&& u.favorite == patch.favorite && u.has_password == patch.set_has_password
    &&& (patch.clear_username ==> u.username == Some(None::<String>))
    &&& (!patch.clear_username ==> u.username == patch.set_username)
    &&& (patch.clear_notes ==> u.notes == Some(None::<String>))
    &&& (!patch.clear_notes ==> u.notes == patch.set_notes)
    &&& (patch.clear_environment ==> u.environment == Some(None::<String>))
    &&& (!patch.clear_environment ==> u.environment == patch.set_environment)
    &&& (patch.clear_proxy_jump ==> u.proxy_jump == Some(None::<String>))
    &&& (!patch.clear_proxy_jump ==> u.proxy_jump == patch.set_proxy_jump)
    &&& (patch.clear_remote_command ==> u.remote_command == Some(None::<String>))
    &&& (!patch.clear_remote_command ==> u.remote_command == patch.set_remote_command)
    &&& (patch.clear_os_icon ==> u.os_icon == Some(None::<String>))
    &&& (!patch.clear_os_icon ==> u.os_icon == patch.set_os_icon)
    &&& (patch.clear_identity ==> u.identity_id == Some(None::<i64>))
    &&& (!patch.clear_identity && patch.set_identity is Some && identity_id is Some
        ==> u.identity_id == Some(identity_id))
    &&& (patch.set_name is None ==> u.name is None && left.printed == managed.name)
    &&& (patch.set_name is Some && free_name is Some ==> u.name == free_name && left.printed
        == free_name->0 && (action->name_taken <==> patch.set_name->0@ != free_name->0@))
    &&& left.groups == patch.set_groups && left.identity is None
    &&& (patch.password is Some && patch.password->0 is Text ==> left.password
        == PasswordAction::Store(patch.password->0->Text_0))
    &&& (patch.password is None && patch.clear_password ==> left.password
        == PasswordAction::Delete)
    &&& (patch.password is None && !patch.clear_password ==> left.password
        == PasswordAction::Keep)
}

/// An edit of a row goes on with the identity and the free name that were found, and
/// stores what was asked for, field by field.
pub proof fn law_edit_of_a_row_is_stored(
    run: EditRun,
    event: EditEvent,
    then: EditRun,
    action: EditAction,
)
    requires
        edit_stepped(run, event, then, action),
    ensures
        run is FindingIdentity && event is Identity ==> {
            let patch = run->FindingIdentity_patch;
            let managed = run->FindingIdentity_managed;
            let found = Some(event->Identity_0);
            &&& (patch.set_name is Some ==> action == (EditAction::FindFreeName {
                asked: patch.set_name->0,
                except: managed.id,
            }) && then == (EditRun::FindingName { patch, managed, identity_id: found }))
            &&& (patch.set_name is None ==> stores_row(action, then, patch, managed, found, None))
        },
        run is FindingName && event is FreeName ==> stores_row(
            action,
            then,
            run->FindingName_patch,
            run->FindingName_managed,
            run->identity_id,
            Some(event->FreeName_0),
        ),
        run is Materializing && event is Materialized ==> (if event->Materialized_0 {
            action is FindAgain && then == (EditRun::FindingAgain {
                patch: run->Materializing_patch,
            })
        } else {
            action == EditAction::Refuse(EditRefusal::NotMaterialized) && then is Done
        }),
{
}

/// What follows once an edit is stored: the groups that were named are looked up and set,
/// an identity that is left is given by itself, the password is stored or deleted, the
/// hosts are loaded anew and the name is printed, in this order.
pub proof fn law_edit_is_finished_in_order(
    run: EditRun,
    event: EditEvent,
    then: EditRun,
    action: EditAction,
)
    requires
        edit_stepped(run, event, then, action),
    ensures
        run is Updating && event is Finished && run->Updating_left.groups is Some ==> action
            is FindGroups && crate::text::texts(action->FindGroups_0@) == crate::text::texts(
            run->Updating_left.groups->0@,
        ) && then == (EditRun::FindingGroups { left: run->Updating_left }),
        run is FindingGroups && event is Groups && (forall|i: int|
            0 <= i < event->Groups_0@.len() ==> (#[trigger] event->Groups_0@[i]) is Ok) ==> action
            is SetGroups && action->SetGroups_id == run->FindingGroups_left.id
            && action->groups@.len() == event->Groups_0@.len() && then == (EditRun::Grouping {
            left: run->FindingGroups_left,
        }) && forall|i: int|
            0 <= i < action->groups@.len() ==> Ok::<i64, String>(#[trigger] action->groups@[i])
                == event->Groups_0@[i],
        run is FindingGroups && event is Groups && (exists|i: int|
            0 <= i < event->Groups_0@.len() && (#[trigger] event->Groups_0@[i]) is Err)
            ==> action is NoGroup && then is Done,
        ((run is Updating && run->Updating_left.groups is None) || run is Grouping) && event
            is Finished ==> {
            let left = if run is Updating {
                run->Updating_left
            } else {
                run->Grouping_left
            };
            &&& (left.identity is Some ==> action == EditAction::FindIdentity(left.identity->0)
                && then == (EditRun::FindingLastIdentity { left }))
            &&& (left.identity is None && left.password is Store ==> action == (
            EditAction::StorePassword { id: left.id, password: left.password->Store_0 }) && then
                == (EditRun::Securing { printed: left.printed }))
            &&& (left.identity is None && left.password is Delete ==> action == (
            EditAction::DeletePassword { id: left.id }) && then == (EditRun::Securing {
                printed: left.printed,
            }))
            &&& (left.identity is None && left.password is Keep ==> action is Reload && then == (
            EditRun::Reloading { printed: left.printed }))
        },
        run is FindingLastIdentity && event is Identity ==> action is Update && action->Update_id
            == run->FindingLastIdentity_left.id && action->update == (HostUpdate {
            identity_id: Some(Some(event->Identity_0)),
            ..HostUpdate::nothing()
        }) && then == (EditRun::Storing { printed: run->FindingLastIdentity_left.printed }),
        run is Securing && event is Finished ==> action is Reload && then == (EditRun::Reloading {
            printed: run->Securing_printed,
        }),
        run is Storing && event is Finished ==> action is Reload && then == (EditRun::Reloading {
            printed: run->Storing_printed,
        }),
        run is Reloading && event is Finished ==> action == EditAction::Print(
            run->Reloading_printed,
        ) && then is Done,
{
    if run is FindingGroups && event is Groups {
        crate::cli::commands::law_first_failure(event->Groups_0@);
    }
}

/// An identity that is found last is stored in the row of the host, and nothing else is
/// changed in it; after that the hosts are read again.
pub proof fn law_last_identity_is_stored(
    run: EditRun,
    event: EditEvent,
    then: EditRun,
    action: EditAction,
)
    requires
        edit_stepped(run, event, then, action),
        run is FindingLastIdentity,
        event is Identity,
    ensures
        ({
            let left = run->FindingLastIdentity_left;
            let identity = event->Identity_0;
            &&& then == (EditRun::Storing { printed: left.printed })
            &&& action is Update
            &&& action->Update_id == left.id
            &&& !action->name_taken
            &&& action->Update_update == (HostUpdate {
                name: None,
                label: None,
                address: None,
                port: None,
                username: None,
                tags: None,
                notes: None,
                environment: None,
                proxy_jump: None,
                remote_command: None,
                forward_agent: None,
                os_icon: None,
                session_logging: None,
                transport: None,
                favorite: None,
                identity_id: Some(Some(identity)),
                has_password: None,
            })
        }),
{
}

} // verus!
