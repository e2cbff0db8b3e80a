//! `host add`, `host rename` and `host duplicate` from their beginning to their end.
//!
//! The caller looks things up and stores what it is told to, reports what came of it
//! and is told what to do next. An error of the database ends the run; the caller
//! reports it.

use vstd::prelude::*;

use crate::cli::add::{created_from, name_taken_message, name_taken_text, HostAddSpec, NewHost};
use crate::cli::commands::{
    after_duplicate, check_rename, first_failure, name_update, renamed_legacy, resolve_group_ids,
    RenameArgs, RenameError,
};
use crate::cli::host::NewPassword;
use crate::model::{HostEntry, HostMetadata, HostSource, HostUpdate, ManagedHost, SshHost};
use crate::text::{clone_texts, str_opt, text_opt, texts};

verus! {

/// What is said where a password cannot be stored.
pub open spec fn password_warning_text(detail: Seq<char>) -> Seq<char> {
    "warning: storing password failed: "@ + detail
}

/// What is said where a password cannot be stored; the command goes on.
pub fn password_warning(detail: &str) -> (r: String)
    ensures
        r@ == password_warning_text(detail@),
{
    let mut text = "warning: storing password failed: ".to_owned();
    text.push_str(detail);
    text
}

// ---------------------------------------------------------------------------
// add

/// What is left to do once a host is stored.
#[derive(Debug)]
pub struct AfterCreate {
    pub id: i64,
    pub printed: String,
    pub password: Option<NewPassword>,
    pub favorite: bool,
}

/// What the creation of a host waits for.
#[derive(Debug)]
pub enum AddRun {
    /// A free name for the one asked for.
    FindingName { asked: HostAddSpec },
    /// The identity of the name asked for.
    FindingIdentity { asked: HostAddSpec, name: String },
    /// The groups of the names asked for.
    FindingGroups { asked: HostAddSpec, name: String, identity_id: Option<i64> },
    /// The host to be stored.
    Creating { groups: Vec<i64>, password: Option<NewPassword>, favorite: bool },
    /// The host to be put into its groups.
    Grouping { left: AfterCreate },
    /// The password to be stored, or that it could not be.
    Securing { left: AfterCreate },
    /// The group of the favorites.
    FindingFavorites { left: AfterCreate },
    /// The host to be put among the favorites.
    Favoring { printed: String },
    /// The hosts to be loaded anew.
    Reloading { printed: String },
    /// Nothing.
    Done,
}

/// What came of the outside work.
#[derive(Debug)]
pub enum AddEvent {
    FreeName(String),
    Identity(i64),
    Groups(Vec<Result<i64, String>>),
    Created { id: i64, name: String },
    Favorites(i64),
    Finished,
}

/// The outside work that comes next.
#[derive(Debug)]
pub enum AddAction {
    FindFreeName(String),
    /// Say that the name was taken, if it was, then find the identity.
    FindIdentity { warning: Option<String>, name: String },
    /// Say that the name was taken, if it was, then find the groups.
    FindGroups { warning: Option<String>, names: Vec<String> },
    Create(NewHost),
    SetGroups { id: i64, groups: Vec<i64> },
    StorePassword { id: i64, password: String },
    FindFavorites,
    AddToGroup { id: i64, group: i64 },
    Reload,
    /// Print the name; nothing comes after that.
    Print(String),
    /// A group was not found; nothing comes after that.
    NoGroup(String),
    /// What was reported does not fit what was waited for.
    Unexpected,
}

/// What follows once the password is settled.
pub open spec fn add_secured(left: AfterCreate) -> (AddRun, AddAction) {
    if left.favorite {
        (AddRun::FindingFavorites { left }, AddAction::FindFavorites)
    } else {
        (AddRun::Reloading { printed: left.printed }, AddAction::Reload)
    }
}

/// What follows once the groups are settled. A password that was never read is not
/// stored.
pub open spec fn add_grouped(left: AfterCreate) -> (AddRun, AddAction) {
    match left.password {
        Some(NewPassword::Text(password)) => (
            AddRun::Securing { left: AfterCreate { password: None, ..left } },
            AddAction::StorePassword { id: left.id, password },
        ),
        _ => add_secured(left),
    }
}

/// Whether a step of the creation of a host is the right one.
pub open spec fn add_stepped(
    run: AddRun,
    event: AddEvent,
    then: AddRun,
    action: AddAction,
) -> bool {
    match (run, event) {
        (AddRun::FindingName { asked }, AddEvent::FreeName(name)) => {
            let warned = name_taken_text(asked.name@, name@);
            match asked.identity {
                Some(identity) => {
                    &&& then == (AddRun::FindingIdentity { asked, name })
                    &&& action matches AddAction::FindIdentity { warning, name: wanted }
                        && text_opt(warning) == warned && wanted == identity
                },
                None => {
                    &&& then == (AddRun::FindingGroups { asked, name, identity_id: None })
                    &&& action matches AddAction::FindGroups { warning, names } && text_opt(
                        warning,
                    ) == warned && texts(names@) == texts(asked.groups@)
                },
            }
        },
        (AddRun::FindingIdentity { asked, name }, AddEvent::Identity(id)) => {
            &&& then == (AddRun::FindingGroups { asked, name, identity_id: Some(id) })
            &&& action matches AddAction::FindGroups { warning, names } && warning is None && texts(
                names@,
            ) == texts(asked.groups@)
        },
        (AddRun::FindingGroups { asked, name, identity_id }, AddEvent::Groups(found)) => {
            let failure = first_failure(found@);
            if failure < found@.len() {
                then is Done && (action matches AddAction::NoGroup(why) && Err::<i64, String>(why)
                    == found@[failure])
            } else {
                &&& then matches AddRun::Creating { groups, password, favorite } && password
                    == asked.password && favorite == asked.favorite && groups@.len()
                    == found@.len() && (forall|i: int|
                    0 <= i < groups@.len() ==> Ok::<i64, String>(#[trigger] groups@[i])
                        == found@[i]) && action == AddAction::Create(
                    created_from(asked, name, identity_id, groups@),
                )
            }
        },
        (
            AddRun::Creating { groups, password, favorite },
            AddEvent::Created { id, name },
        ) => then == (AddRun::Grouping {
            left: AfterCreate { id, printed: name, password, favorite },
        }) && action == (AddAction::SetGroups { id, groups }),
        (AddRun::Grouping { left }, AddEvent::Finished) => (then, action) == add_grouped(left),
        (AddRun::Securing { left }, AddEvent::Finished) => (then, action) == add_secured(left),
        (AddRun::FindingFavorites { left }, AddEvent::Favorites(group)) => then == (
        AddRun::Favoring { printed: left.printed }) && action == (AddAction::AddToGroup {
            id: left.id,
            group,
        }),
        (AddRun::Favoring { printed }, AddEvent::Finished) => then == (AddRun::Reloading {
            printed,
        }) && action is Reload,
        (AddRun::Reloading { printed }, AddEvent::Finished) => then is Done && action
            == AddAction::Print(printed),
        _ => then == run && action is Unexpected,
    }
}

/// Begin the creation of a host: a free name is to be found.
pub fn begin_add(asked: HostAddSpec) -> (r: (AddRun, AddAction))
    ensures
        r == (AddRun::FindingName { asked }, AddAction::FindFreeName(asked.name)),
{
    let name = asked.name.clone();
    (AddRun::FindingName { asked }, AddAction::FindFreeName(name))
}

fn secured(left: AfterCreate) -> (r: (AddRun, AddAction))
    ensures
        r == add_secured(left),
{
    if left.favorite {
        (AddRun::FindingFavorites { left }, AddAction::FindFavorites)
    } else {
        (AddRun::Reloading { printed: left.printed }, AddAction::Reload)
    }
}

/// Go on with the creation of a host after the outside work that was waited for, and
/// say what comes next.
pub fn cmd_add(run: AddRun, event: AddEvent) -> (r: (AddRun, AddAction))
    ensures
        add_stepped(run, event, r.0, r.1),
{
    match (run, event) {
        (AddRun::FindingName { asked }, AddEvent::FreeName(name)) => {
            let warning = name_taken_message(asked.name.as_str(), name.as_str());
            let identity = match &asked.identity {
                Some(i) => Some(i.clone()),
                None => None,
            };
            match identity {
                Some(i) => (
                    AddRun::FindingIdentity { asked, name },
                    AddAction::FindIdentity { warning, name: i },
                ),
                None => {
                    let names = clone_texts(&asked.groups);
                    (
                        AddRun::FindingGroups { asked, name, identity_id: None },
                        AddAction::FindGroups { warning, names },
                    )
                },
            }
        },
        (AddRun::FindingIdentity { asked, name }, AddEvent::Identity(id)) => {
            let names = clone_texts(&asked.groups);
            (
                AddRun::FindingGroups { asked, name, identity_id: Some(id) },
                AddAction::FindGroups { warning: None, names },
            )
        },
        (AddRun::FindingGroups { asked, name, identity_id }, AddEvent::Groups(found)) => {
            match resolve_group_ids(&found) {
                Ok(groups) => {
                    let favorite: bool = asked.favorite;
                    let (host, password) = asked.new_host(name, identity_id, &groups);
                    (
                        AddRun::Creating { groups, password, favorite },
                        AddAction::Create(host),
                    )
                },
                Err(why) => (AddRun::Done, AddAction::NoGroup(why)),
            }
        },
        (AddRun::Creating { groups, password, favorite }, AddEvent::Created { id, name }) => (
            AddRun::Grouping { left: AfterCreate { id, printed: name, password, favorite } },
            AddAction::SetGroups { id, groups },
        ),
        (AddRun::Grouping { left }, AddEvent::Finished) => {
            match left.password {
                Some(NewPassword::Text(password)) => {
                    let id: i64 = left.id;
                    (
                        AddRun::Securing {
                            left: AfterCreate {
                                id,
                                printed: left.printed,
                                password: None,
                                favorite: left.favorite,
                            },
                        },
                        AddAction::StorePassword { id, password },
                    )
                },
                Some(NewPassword::Stdin) => secured(
                    AfterCreate {
                        id: left.id,
                        printed: left.printed,
                        password: Some(NewPassword::Stdin),
                        favorite: left.favorite,
                    },
                ),
                None => secured(
                    AfterCreate {
                        id: left.id,
                        printed: left.printed,
                        password: None,
                        favorite: left.favorite,
                    },
                ),
            }
        },
        (AddRun::Securing { left }, AddEvent::Finished) => secured(left),
        (AddRun::FindingFavorites { left }, AddEvent::Favorites(group)) => (
            AddRun::Favoring { printed: left.printed },
            AddAction::AddToGroup { id: left.id, group },
        ),
        (AddRun::Favoring { printed }, AddEvent::Finished) => (
            AddRun::Reloading { printed },
            AddAction::Reload,
        ),
        (AddRun::Reloading { printed }, AddEvent::Finished) => (
            AddRun::Done,
            AddAction::Print(printed),
        ),
        (run, _) => (run, AddAction::Unexpected),
    }
}

/// How far the creation of a host is from its end.
pub open spec fn add_left(run: AddRun) -> nat {
    match run {
        AddRun::FindingName { asked } => 9,
        AddRun::FindingIdentity { asked, name } => 8,
        AddRun::FindingGroups { asked, name, identity_id } => 7,
        AddRun::Creating { groups, password, favorite } => 6,
        AddRun::Grouping { left } => 5,
        AddRun::Securing { left } => 4,
        AddRun::FindingFavorites { left } => 3,
        AddRun::Favoring { printed } => 2,
        AddRun::Reloading { printed } => 1,
        AddRun::Done => 0,
    }
}

/// Every report that fits brings the creation of a host nearer to its end, and a group
/// that is not found ends it before anything is stored.
pub proof fn law_add_ends(run: AddRun, event: AddEvent, then: AddRun, action: AddAction)
    requires
        add_stepped(run, event, then, action),
    ensures
        action is Unexpected ==> then == run,
        !(action is Unexpected) ==> add_left(then) < add_left(run),
        action is NoGroup ==> run is FindingGroups && then is Done,
        action is Create ==> run is FindingGroups,
{
}

/// The creation of a host, step by step: the name that was found is warned of where it is
/// another, the identity and the groups are looked up by the names asked for, the host is
/// stored with all that was asked for, put into all its groups, given its password where
/// one was read and put among the favorites where that was asked for; then the hosts are
/// loaded anew and the name that was stored is printed.
pub proof fn law_add_step_by_step(run: AddRun, event: AddEvent, then: AddRun, action: AddAction)
    requires
        add_stepped(run, event, then, action),
    ensures
        run is FindingName && event is FreeName ==> {
            let asked = run->FindingName_asked;
            let name = event->FreeName_0;
            &&& (asked.identity is Some ==> action is FindIdentity && action->FindIdentity_name
                == asked.identity->0 && then == (AddRun::FindingIdentity { asked, name }))
            &&& (asked.identity is None ==> action is FindGroups && texts(action->names@)
                == texts(asked.groups@) && then == (AddRun::FindingGroups {
                asked,
                name,
                identity_id: None,
            }))
            &&& (asked.identity is Some ==> text_opt(action->FindIdentity_warning)
                == name_taken_text(asked.name@, name@))
            &&& (asked.identity is None ==> text_opt(action->FindGroups_warning)
                == name_taken_text(asked.name@, name@))
        },
        run is FindingIdentity && event is Identity ==> action is FindGroups && texts(
            action->names@,
        ) == texts(run->FindingIdentity_asked.groups@) && action->FindGroups_warning is None
            && then == (AddRun::FindingGroups {
            asked: run->FindingIdentity_asked,
            name: run->FindingIdentity_name,
            identity_id: Some(event->Identity_0),
        }),
        run is FindingGroups && event is Groups && (forall|i: int|
            0 <= i < event->Groups_0@.len() ==> (#[trigger] event->Groups_0@[i]) is Ok) ==> {
            let asked = run->FindingGroups_asked;
            let h = action->Create_0;
            let ids = then->Creating_groups@;
            &&& action is Create && then is Creating
            &&& h.name == run->FindingGroups_name && h.identity_id == run->identity_id
            &&& h.address == asked.address && h.port == asked.port && h.label == asked.label
            &&& h.username == asked.username && h.tags == asked.tags && h.notes == asked.notes
            &&& h.proxy_jump == asked.proxy_jump && h.remote_command == asked.remote_command
            &&& h.forward_agent == asked.forward_agent && h.transport == asked.transport
            &&& h.session_logging == asked.session_logging && h.os_icon == asked.os_icon
            &&& h.source == HostSource::Launcher && h.has_password == (asked.password is Some)
            &&& then->Creating_password == asked.password && then->Creating_favorite
                == asked.favorite
            &&& ids.len() == event->Groups_0@.len()
            &&& (ids.len() > 0 ==> h.group_id == Some(ids[0]))
            &&& (ids.len() == 0 ==> h.group_id is None)
            &&& forall|i: int|
                0 <= i < ids.len() ==> Ok::<i64, String>(#[trigger] ids[i]) == event->Groups_0@[i]
        },
        run is FindingGroups && event is Groups && (exists|i: int|
            0 <= i < event->Groups_0@.len() && (#[trigger] event->Groups_0@[i]) is Err)
            ==> action is NoGroup && then is Done,
        run is Creating && event is Created ==> action is SetGroups && action->SetGroups_id
            == event->id && action->groups@ == run->Creating_groups@ && then == (AddRun::Grouping {
            left: AfterCreate {
                id: event->id,
                printed: event->name,
                password: run->Creating_password,
                favorite: run->Creating_favorite,
            },
        }),
        run is Grouping && event is Finished && run->Grouping_left.password is Some
            && run->Grouping_left.password->0 is Text ==> action == (AddAction::StorePassword {
            id: run->Grouping_left.id,
            password: run->Grouping_left.password->0->Text_0,
        }) && then is Securing && then->Securing_left.id == run->Grouping_left.id
            && then->Securing_left.favorite == run->Grouping_left.favorite
            && then->Securing_left.printed == run->Grouping_left.printed,
        run is Grouping && event is Finished && !(run->Grouping_left.password is Some
            && run->Grouping_left.password->0 is Text) ==> (if run->Grouping_left.favorite {
            action is FindFavorites && then is FindingFavorites && then->FindingFavorites_left
                == run->Grouping_left
        } else {
            action is Reload && then == (AddRun::Reloading { printed: run->Grouping_left.printed })
        }),
        run is Securing && event is Finished ==> (if run->Securing_left.favorite {
            action is FindFavorites && then is FindingFavorites && then->FindingFavorites_left
                == run->Securing_left
        } else {
            action is Reload && then == (AddRun::Reloading { printed: run->Securing_left.printed })
        }),
        run is FindingFavorites && event is Favorites ==> action == (AddAction::AddToGroup {
            id: run->FindingFavorites_left.id,
            group: event->Favorites_0,
        }) && then == (AddRun::Favoring { printed: run->FindingFavorites_left.printed }),
        run is Favoring && event is Finished ==> action is Reload && then == (AddRun::Reloading {
            printed: run->Favoring_printed,
        }),
        run is Reloading && event is Finished ==> action == AddAction::Print(
            run->Reloading_printed,
        ) && then is Done,
{
    if run is FindingGroups && event is Groups {
        crate::cli::commands::law_first_failure(event->Groups_0@);
    }
}

// ---------------------------------------------------------------------------
// rename

/// What a rename waits for.
#[derive(Debug)]
pub enum RenameRun {
    /// The host of the name.
    Finding { asked: RenameArgs },
    /// Whether the new name is taken.
    Checking { asked: RenameArgs, id: i64 },
    /// A free name for the new one.
    FindingName { id: i64 },
    /// The change to be stored.
    Updating { printed: String },
    /// The hosts to be loaded anew.
    Reloading { printed: String },
    /// Nothing.
    Done,
}

/// What came of the outside work.
#[derive(Debug)]
pub enum RenameEvent {
    Found(ManagedHost),
    Checked { taken: bool },
    FreeName(String),
    Finished,
}

/// The outside work that comes next.
#[derive(Debug)]
pub enum RenameAction {
    CheckName(String),
    FindFreeName { asked: String, except: i64 },
    Update { id: i64, update: HostUpdate },
    Reload,
    /// Print the name; nothing comes after that.
    Print(String),
    Refuse(RenameError),
    /// What was reported does not fit what was waited for.
    Unexpected,
}

/// The step that stores a new name.
pub open spec fn renamed(id: i64, name: String) -> (RenameRun, RenameAction) {
    (
        RenameRun::Updating { printed: name },
        RenameAction::Update {
            id,
            update: HostUpdate { name: Some(name), ..HostUpdate::nothing() },
        },
    )
}

/// What follows each report in a rename. A strict one asks whether the name is taken,
/// any other one asks for a free name.
pub open spec fn rename_next(run: RenameRun, event: RenameEvent) -> (RenameRun, RenameAction) {
    match (run, event) {
        (RenameRun::Finding { asked }, RenameEvent::Found(managed)) => if managed.source
            != HostSource::Launcher {
            (RenameRun::Done, RenameAction::Refuse(RenameError::NotLauncher))
        } else if asked.strict {
            (
                RenameRun::Checking { asked, id: managed.id },
                RenameAction::CheckName(asked.new_name),
            )
        } else {
            (
                RenameRun::FindingName { id: managed.id },
                RenameAction::FindFreeName { asked: asked.new_name, except: managed.id },
            )
        },
        (RenameRun::Checking { asked, id }, RenameEvent::Checked { taken }) => if taken {
            (RenameRun::Done, RenameAction::Refuse(RenameError::NameTaken(asked.new_name)))
        } else {
            renamed(id, asked.new_name)
        },
        (RenameRun::FindingName { id }, RenameEvent::FreeName(name)) => renamed(id, name),
        (RenameRun::Updating { printed }, RenameEvent::Finished) => (
            RenameRun::Reloading { printed },
            RenameAction::Reload,
        ),
        (RenameRun::Reloading { printed }, RenameEvent::Finished) => (
            RenameRun::Done,
            RenameAction::Print(printed),
        ),
        _ => (run, RenameAction::Unexpected),
    }
}

fn store_name(id: i64, name: String) -> (r: (RenameRun, RenameAction))
    ensures
        r == renamed(id, name),
{
    let update = name_update(name.clone());
    (RenameRun::Updating { printed: name }, RenameAction::Update { id, update })
}

/// Go on with a rename after the outside work that was waited for, and say what comes
/// next. It begins with the host to be found.
pub fn cmd_rename(run: RenameRun, event: RenameEvent) -> (r: (RenameRun, RenameAction))
    ensures
        r == rename_next(run, event),
{
    match (run, event) {
        (RenameRun::Finding { asked }, RenameEvent::Found(managed)) => {
            match check_rename(&managed) {
                Err(e) => (RenameRun::Done, RenameAction::Refuse(e)),
                Ok(_) => {
                    if asked.strict {
                        let name = asked.new_name.clone();
                        (
                            RenameRun::Checking { asked, id: managed.id },
                            RenameAction::CheckName(name),
                        )
                    } else {
                        (
                            RenameRun::FindingName { id: managed.id },
                            RenameAction::FindFreeName {
                                asked: asked.new_name,
                                except: managed.id,
                            },
                        )
                    }
                },
            }
        },
        (RenameRun::Checking { asked, id }, RenameEvent::Checked { taken }) => {
            if taken {
                (RenameRun::Done, RenameAction::Refuse(RenameError::NameTaken(asked.new_name)))
            } else {
                store_name(id, asked.new_name)
            }
        },
        (RenameRun::FindingName { id }, RenameEvent::FreeName(name)) => store_name(id, name),
        (RenameRun::Updating { printed }, RenameEvent::Finished) => (
            RenameRun::Reloading { printed },
            RenameAction::Reload,
        ),
        (RenameRun::Reloading { printed }, RenameEvent::Finished) => (
            RenameRun::Done,
            RenameAction::Print(printed),
        ),
        (run, _) => (run, RenameAction::Unexpected),
    }
}

/// Only hosts that were created here are given another name.
pub proof fn law_only_launcher_hosts_renamed(asked: RenameArgs, managed: ManagedHost)
    requires
        managed.source != HostSource::Launcher,
    ensures
        rename_next(RenameRun::Finding { asked }, RenameEvent::Found(managed)) == (
            RenameRun::Done,
            RenameAction::Refuse(RenameError::NotLauncher),
        ),
{
}

/// A rename, step by step: a host that was created here gets the new name if it is free
/// and that was asked for strictly, or otherwise the free name that was found for it;
/// nothing else of its row changes, and the name that was stored is printed.
pub proof fn law_rename_step_by_step(run: RenameRun, event: RenameEvent)
    ensures
        ({
            let (then, action) = rename_next(run, event);
            &&& (run is Finding && event is Found && event->Found_0.source == HostSource::Launcher
                ==> (if run->Finding_asked.strict {
                action == RenameAction::CheckName(run->Finding_asked.new_name) && then == (
                RenameRun::Checking { asked: run->Finding_asked, id: event->Found_0.id })
            } else {
                action == (RenameAction::FindFreeName {
                    asked: run->Finding_asked.new_name,
                    except: event->Found_0.id,
                }) && then == (RenameRun::FindingName { id: event->Found_0.id })
            }))
            &&& (run is Checking && event is Checked && event->taken ==> action
                == RenameAction::Refuse(RenameError::NameTaken(run->Checking_asked.new_name))
                && then is Done)
            &&& (run is Checking && event is Checked && !event->taken ==> action is Update
                && action->id == run->Checking_id && action->update.name == Some(
                run->Checking_asked.new_name,
            ) && then == (RenameRun::Updating { printed: run->Checking_asked.new_name }))
            &&& (run is FindingName && event is FreeName ==> action is Update && action->id
                == run->FindingName_id && action->update.name == Some(event->FreeName_0) && then
                == (RenameRun::Updating { printed: event->FreeName_0 }))
            &&& (action is Update ==> action->update == (HostUpdate {
                name: action->update.name,
                ..HostUpdate::nothing()
            }))
            &&& (run is Updating && event is Finished ==> action is Reload && then == (
            RenameRun::Reloading { printed: run->Updating_printed }))
            &&& (run is Reloading && event is Finished ==> action == RenameAction::Print(
                run->Reloading_printed,
            ) && then is Done)
            &&& (action is Unexpected ==> then == run)
        }),
{
}

// ---------------------------------------------------------------------------
// duplicate

/// What a duplication waits for.
#[derive(Debug)]
pub enum DuplicateRun {
    /// The host of the name.
    Finding { requested: Option<String> },
    /// A free name for the one requested.
    FindingName { id: i64 },
    /// The row to be copied; the name that the copy is to have, if one was requested.
    Copying { unique: Option<String> },
    /// The host without a row to be copied to one.
    CopyingLegacy,
    /// The copy to be given its name.
    Renaming { name: String },
    /// The hosts to be loaded anew.
    Reloading { name: String },
    /// Nothing.
    Done,
}

/// What came of the outside work.
#[derive(Debug)]
pub enum DuplicateEvent {
    Found(HostEntry),
    FreeName(String),
    /// A copy was made, under some name.
    Copied { id: i64, name: String },
    /// A host without a row was copied to one, under this name.
    CopiedLegacy(String),
    /// The row was gone.
    Gone,
    Finished,
}

/// The outside work that comes next.
#[derive(Debug)]
pub enum DuplicateAction {
    FindFreeName(String),
    CopyRow(i64),
    CopyLegacy { host: SshHost, meta: HostMetadata },
    Update { id: i64, update: HostUpdate },
    Reload,
    /// Show the host of the name; nothing comes after that.
    Show(String),
    /// There is no such host any more; nothing comes after that.
    NotFound,
    /// What was reported does not fit what was waited for.
    Unexpected,
}

impl DuplicateAction {
    /// What the command fails with, where the host is gone.
    pub open spec fn error_text(self) -> Option<Seq<char>> {
        match self {
            DuplicateAction::NotFound => Some("host not found"@),
            _ => None,
        }
    }

    /// What the command fails with, where the host is gone.
    pub fn error(&self) -> (r: Option<&'static str>)
        ensures
            str_opt(r) == self.error_text(),
    {
        match self {
            DuplicateAction::NotFound => Some("host not found"),
            _ => None,
        }
    }
}

/// Whether a step of a duplication is the right one.
pub open spec fn duplicate_stepped(
    run: DuplicateRun,
    event: DuplicateEvent,
    then: DuplicateRun,
    action: DuplicateAction,
) -> bool {
    match (run, event) {
        (DuplicateRun::Finding { requested }, DuplicateEvent::Found(entry)) => match entry {
            HostEntry::Managed(m) => match requested {
                Some(name) => then == (DuplicateRun::FindingName { id: m.id }) && action
                    == DuplicateAction::FindFreeName(name),
                None => then == (DuplicateRun::Copying { unique: None }) && action
                    == DuplicateAction::CopyRow(m.id),
            },
            HostEntry::Legacy { host, meta } => then is CopyingLegacy && action == (match requested {
                Some(name) => DuplicateAction::CopyLegacy {
                    host: SshHost { name, ..host },
                    meta: HostMetadata { host_name: name, ..meta },
                },
                None => DuplicateAction::CopyLegacy { host, meta },
            }),
        },
        (DuplicateRun::FindingName { id }, DuplicateEvent::FreeName(name)) => then == (
        DuplicateRun::Copying { unique: Some(name) }) && action == DuplicateAction::CopyRow(id),
        (DuplicateRun::Copying { unique }, DuplicateEvent::Copied { id, name }) => if unique
            is Some && unique->0@ != name@ {
            then == (DuplicateRun::Renaming { name: unique->0 }) && action == (
            DuplicateAction::Update {
                id,
                update: HostUpdate { name: unique, ..HostUpdate::nothing() },
            })
        } else {
            then == (DuplicateRun::Reloading { name }) && action is Reload
        },
        (DuplicateRun::Copying { unique }, DuplicateEvent::Gone) => then is Done && action
            is NotFound,
        (DuplicateRun::CopyingLegacy, DuplicateEvent::CopiedLegacy(name)) => then == (
        DuplicateRun::Reloading { name }) && action is Reload,
        (DuplicateRun::Renaming { name }, DuplicateEvent::Finished) => then == (
        DuplicateRun::Reloading { name }) && action is Reload,
        (DuplicateRun::Reloading { name }, DuplicateEvent::Finished) => then is Done && action
            == DuplicateAction::Show(name),
        _ => then == run && action is Unexpected,
    }
}

/// Go on with a duplication after the outside work that was waited for, and say what
/// comes next. It begins with the host to be found.
pub fn cmd_duplicate(run: DuplicateRun, event: DuplicateEvent) -> (r: (
    DuplicateRun,
    DuplicateAction,
))
    ensures
        duplicate_stepped(run, event, r.0, r.1),
{
    match (run, event) {
        (DuplicateRun::Finding { requested }, DuplicateEvent::Found(entry)) => {
            match entry {
                HostEntry::Managed(m) => {
                    match requested {
                        Some(name) => (
                            DuplicateRun::FindingName { id: m.id },
                            DuplicateAction::FindFreeName(name),
                        ),
                        None => (
                            DuplicateRun::Copying { unique: None },
                            DuplicateAction::CopyRow(m.id),
                        ),
                    }
                },
                HostEntry::Legacy { host, meta } => {
                    let (host, meta) = renamed_legacy(host, meta, requested);
                    (DuplicateRun::CopyingLegacy, DuplicateAction::CopyLegacy { host, meta })
                },
            }
        },
        (DuplicateRun::FindingName { id }, DuplicateEvent::FreeName(name)) => (
            DuplicateRun::Copying { unique: Some(name) },
            DuplicateAction::CopyRow(id),
        ),
        (DuplicateRun::Copying { unique }, DuplicateEvent::Copied { id, name }) => {
            match after_duplicate(unique, name) {
                (Some(update), name) => (
                    DuplicateRun::Renaming { name },
                    DuplicateAction::Update { id, update },
                ),
                (None, name) => (DuplicateRun::Reloading { name }, DuplicateAction::Reload),
            }
        },
        (DuplicateRun::Copying { unique: _ }, DuplicateEvent::Gone) => (
            DuplicateRun::Done,
            DuplicateAction::NotFound,
        ),
        (DuplicateRun::CopyingLegacy, DuplicateEvent::CopiedLegacy(name)) => (
            DuplicateRun::Reloading { name },
            DuplicateAction::Reload,
        ),
        (DuplicateRun::Renaming { name }, DuplicateEvent::Finished) => (
            DuplicateRun::Reloading { name },
            DuplicateAction::Reload,
        ),
        (DuplicateRun::Reloading { name }, DuplicateEvent::Finished) => (
            DuplicateRun::Done,
            DuplicateAction::Show(name),
        ),
        (run, _) => (run, DuplicateAction::Unexpected),
    }
}

/// A copy of a row ends up under the free name that was found, where a name was
/// requested, whatever name it was given first.
pub proof fn law_copy_gets_the_free_name(
    unique: String,
    id: i64,
    name: String,
    then: DuplicateRun,
    action: DuplicateAction,
)
    requires
        duplicate_stepped(
            DuplicateRun::Copying { unique: Some(unique) },
            DuplicateEvent::Copied { id, name },
            then,
            action,
        ),
    ensures
        then matches DuplicateRun::Renaming { name: n } ==> n@ == unique@,
        then matches DuplicateRun::Reloading { name: n } ==> n@ == unique@,
        then is Renaming || then is Reloading,
{
}

/// A warning about a password shows why it was not stored.
pub proof fn law_password_warning(detail: Seq<char>)
    ensures
        password_warning_text(detail) == "warning: storing password failed: "@ + detail,
{
}

/// A copy of a host: one with a row is copied from it, under a free name where one is
/// requested; one without is copied as it is, under the name requested. A row that is
/// gone is said to be not found, and otherwise the copy is shown under the name it ended
/// up with once the hosts were loaded anew.
pub proof fn law_duplicate_step_by_step(
    run: DuplicateRun,
    event: DuplicateEvent,
    then: DuplicateRun,
    action: DuplicateAction,
)
    requires
        duplicate_stepped(run, event, then, action),
    ensures
        run is Finding && event is Found && event->Found_0 is Managed && run->requested is Some
            ==> action == DuplicateAction::FindFreeName(run->requested->0) && then
            == (DuplicateRun::FindingName { id: event->Found_0->Managed_0.id }),
        run is Finding && event is Found && event->Found_0 is Managed && run->requested is None
            ==> action == DuplicateAction::CopyRow(event->Found_0->Managed_0.id) && then
            == (DuplicateRun::Copying { unique: None }),
        run is FindingName && event is FreeName ==> action == DuplicateAction::CopyRow(
            run->FindingName_id,
        ) && then == (DuplicateRun::Copying { unique: Some(event->FreeName_0) }),
        run is Finding && event is Found && event->Found_0 is Legacy ==> action is CopyLegacy && {
            let was = event->Found_0->host;
            let kept = event->Found_0->meta;
            &&& action->host.user == was.user && action->host.proxy_jump == was.proxy_jump
            &&& action->meta.tags == kept.tags && action->meta.description == kept.description
            &&& action->meta.environment == kept.environment
            &&& action->meta.favorite == kept.favorite
            &&& action->meta.session_logging == kept.session_logging
            &&& action->meta.transport == kept.transport
            &&& action->meta.last_connected == kept.last_connected
            &&& (run->requested is None ==> action->host.name == was.name
                && action->meta.host_name == kept.host_name)
            &&& (run->requested is Some ==> action->host.name == run->requested->0
                && action->meta.host_name == run->requested->0)
        },
        run is Copying && event is Copied && run->unique is Some && run->unique->0@
            != event->name@ ==> action is Update && action->Update_id == event->id
            && action->update.name == run->unique && then == (DuplicateRun::Renaming {
            name: run->unique->0,
        }),
        run is Copying && event is Copied && (run->unique is None || run->unique->0@
            == event->name@) ==> action is Reload && then == (DuplicateRun::Reloading {
            name: event->name,
        }),
        action is Update ==> action->update.address is None && action->update.port is None
            && action->update.username is None && action->update.label is None
            && action->update.identity_id is None,
        run is Copying && event is Gone ==> action is NotFound && action.error_text() == Some(
            "host not found"@,
        ),
        run is CopyingLegacy && event is CopiedLegacy ==> action is Reload && then == (
        DuplicateRun::Reloading { name: event->CopiedLegacy_0 }),
        run is Renaming && event is Finished ==> action is Reload && then == (
        DuplicateRun::Reloading { name: run->Renaming_name }),
        run is Reloading && event is Finished ==> action == DuplicateAction::Show(
            run->Reloading_name,
        ) && then is Done,
        action is NotFound <==> run is Copying && event is Gone,
{
}

/// A duplication fails with a message exactly where the host is gone.
pub proof fn law_only_a_missing_host_is_told(action: DuplicateAction)
    ensures
        action.error_text() is Some <==> action is NotFound,
        action is NotFound ==> action.error_text()->0 == "host not found"@,
{
}

} // verus!
