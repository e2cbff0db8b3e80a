//! Which `host` command is meant, and the decisions of the short ones.

use vstd::prelude::*;

use crate::cli::host::copied_args;
use crate::cli::parse::{
    all_taken, asked, asked_all, flagged, lemma_flag_is_taken, lemma_option_is_taken,
    lemma_options_are_taken, lemma_others_are_left, lemma_others_are_left_by_all, spelled,
    take_all, take_flag, take_opt, taken, told, well_spelled, without_all, without_first, Arg,
};
use crate::model::{HostEntry, HostMetadata, HostSource, HostUpdate, ManagedHost, SshHost};
use crate::text::{str_opt, text_opt, texts};

verus! {

/// The `host` commands.
#[derive(Debug, Clone, Copy, PartialEq, Eq, Structural)]
pub enum HostCommand {
    List,
    Show,
    Resolve,
    Search,
    Connect,
    Add,
    Edit,
    Rename,
    Delete,
    Duplicate,
}

/// Why no command is run.
#[derive(Debug)]
pub enum HostUsage {
    /// Nothing follows `host`.
    Missing,
    /// What follows is no command.
    Unknown(String),
}

/// The command that a word stands for.
pub open spec fn command_named(word: Seq<char>) -> Option<HostCommand> {
    if word == "list"@ {
        Some(HostCommand::List)
    } else if word == "show"@ {
        Some(HostCommand::Show)
    } else if word == "resolve"@ {
        Some(HostCommand::Resolve)
    } else if word == "search"@ {
        Some(HostCommand::Search)
    } else if word == "connect"@ {
        Some(HostCommand::Connect)
    } else if word == "add"@ {
        Some(HostCommand::Add)
    } else if word == "edit"@ {
        Some(HostCommand::Edit)
    } else if word == "rename"@ {
        Some(HostCommand::Rename)
    } else if word == "delete"@ {
        Some(HostCommand::Delete)
    } else if word == "duplicate"@ {
        Some(HostCommand::Duplicate)
    } else {
        None
    }
}

fn named_command(word: &str) -> (r: Option<HostCommand>)
    ensures
        r == command_named(word@),
{
    if str::eq(word, "list") {
        Some(HostCommand::List)
    } else if str::eq(word, "show") {
        Some(HostCommand::Show)
    } else if str::eq(word, "resolve") {
        Some(HostCommand::Resolve)
    } else if str::eq(word, "search") {
        Some(HostCommand::Search)
    } else if str::eq(word, "connect") {
        Some(HostCommand::Connect)
    } else if str::eq(word, "add") {
        Some(HostCommand::Add)
    } else if str::eq(word, "edit") {
        Some(HostCommand::Edit)
    } else if str::eq(word, "rename") {
        Some(HostCommand::Rename)
    } else if str::eq(word, "delete") {
        Some(HostCommand::Delete)
    } else if str::eq(word, "duplicate") {
        Some(HostCommand::Duplicate)
    } else {
        None
    }
}

/// Which command the arguments after `host` mean, and the arguments of it.
pub fn run_host(args: &[String]) -> (r: Result<(HostCommand, Vec<String>), HostUsage>)
    ensures
        args@.len() == 0 ==> r == Err::<(HostCommand, Vec<String>), HostUsage>(HostUsage::Missing),
        args@.len() > 0 ==> match command_named(args@[0]@) {
            Some(c) => r matches Ok(p) && p.0 == c && p.1@ == args@.skip(1),
            None => r matches Err(HostUsage::Unknown(w)) && w@ == args@[0]@,
        },
{
    if args.len() == 0 {
        return Err(HostUsage::Missing);
    }
    match named_command(args[0].as_str()) {
        Some(c) => {
            let mut rest = copied_args(args);
            let _ = rest.remove(0);
            assert(rest@ =~= args@.skip(1));
            Ok((c, rest))
        },
        None => Err(HostUsage::Unknown(args[0].clone())),
    }
}

impl HostUsage {
    /// The lines that are said, each after the program's name.
    pub open spec fn lines_text(self) -> Seq<Seq<char>> {
        match self {
            HostUsage::Missing => seq!["missing host subcommand"@],
            HostUsage::Unknown(word) => seq![
                "unknown host subcommand '"@ + word@ + "'"@,
                "try: list, show, connect, resolve, search, add, edit, rename, delete, duplicate"@,
            ],
        }
    }

    /// The lines that are said, each after the program's name.
    pub fn lines(&self) -> (r: Vec<String>)
        ensures
            texts(r@) == self.lines_text(),
    {
        let mut r: Vec<String> = Vec::new();
        match self {
            HostUsage::Missing => {
                r.push("missing host subcommand".to_owned());
            },
            HostUsage::Unknown(word) => {
                let mut first = "unknown host subcommand '".to_owned();
                first.push_str(word.as_str());
                first.push_str("'");
                r.push(first);
                r.push(
                    "try: list, show, connect, resolve, search, add, edit, rename, delete, duplicate".to_owned(),
                );
            },
        }
        assert(texts(r@) =~= self.lines_text());
        r
    }
}

/// The exit status where no command is run, or one lacks the argument that stands by
/// itself.
pub fn usage_status() -> (r: i32)
    ensures
        r == 2,
{
    2
}

impl HostCommand {
    /// What is said where a command lacks the argument that stands by itself; nothing
    /// for a command that has none.
    pub open spec fn needs_text(self) -> Option<Seq<char>> {
        match self {
            HostCommand::Show => Some("show requires <name>"@),
            HostCommand::Resolve => Some("resolve requires <name>"@),
            HostCommand::Search => Some("search requires <query>"@),
            HostCommand::Connect => Some("connect requires <name>"@),
            _ => None,
        }
    }

    /// What is said where a command lacks the argument that stands by itself.
    pub fn needs(self) -> (r: Option<&'static str>)
        ensures
            str_opt(r) == self.needs_text(),
    {
        match self {
            HostCommand::Show => Some("show requires <name>"),
            HostCommand::Resolve => Some("resolve requires <name>"),
            HostCommand::Search => Some("search requires <query>"),
            HostCommand::Connect => Some("connect requires <name>"),
            _ => None,
        }
    }
}

/// The tags and the group that a list is narrowed to, and the other arguments.
pub open spec fn list_filters(args: Seq<Seq<char>>) -> (
    Seq<Seq<char>>,
    Option<Seq<char>>,
    Seq<Seq<char>>,
) {
    let (tags, rest) = all_taken(args, "--tag"@);
    let (group, rest) = taken(rest, "--group"@);
    (tags, group, rest)
}

/// Take the tags and the group that a list is narrowed to.
pub fn take_list_filters(args: &mut Vec<String>) -> (r: (Vec<String>, Option<String>))
    ensures
        (texts(r.0@), text_opt(r.1), texts(final(args)@)) == list_filters(texts(old(args)@)),
{
    let tags = take_all(args, "--tag");
    let group = take_opt(args, "--group");
    (tags, group)
}

/// Whether more output is asked for: `--verbose` is looked for first, and `-v` only
/// without it.
pub open spec fn verbosity_of(args: Seq<Seq<char>>) -> (bool, Seq<Seq<char>>) {
    let (long, rest) = flagged(args, "--verbose"@);
    if long {
        (true, rest)
    } else {
        flagged(rest, "-v"@)
    }
}

/// Take the flag that asks for more output.
pub fn take_verbose(args: &mut Vec<String>) -> (r: bool)
    ensures
        (r, texts(final(args)@)) == verbosity_of(texts(old(args)@)),
{
    if take_flag(args, "--verbose") {
        true
    } else {
        take_flag(args, "-v")
    }
}

/// The names of the hosts at the given places.
pub fn names_at(hosts: &Vec<HostEntry>, indices: &Vec<usize>) -> (r: Vec<String>)
    requires
        forall|i: int| 0 <= i < indices@.len() ==> #[trigger] indices@[i] < hosts@.len(),
    ensures
        r@.len() == indices@.len(),
        forall|i: int|
            0 <= i < indices@.len() ==> #[trigger] r@[i]@ == hosts@[indices@[i] as int].called(),
{
    let mut r: Vec<String> = Vec::new();
    let mut i: usize = 0;
    while i < indices.len()
        invariant
            i <= indices@.len(),
            r@.len() == i,
            forall|k: int| 0 <= k < indices@.len() ==> #[trigger] indices@[k] < hosts@.len(),
            forall|k: int|
                0 <= k < i ==> #[trigger] r@[k]@ == hosts@[indices@[k] as int].called(),
        decreases indices@.len() - i,
    {
        r.push(hosts[indices[i]].name().clone());
        i = i + 1;
    }
    r
}

/// The first that was not found; the number of lookups, if all were.
pub open spec fn first_failure(found: Seq<Result<i64, String>>) -> int
    decreases found.len(),
{
    if found.len() == 0 || found[0] is Err {
        0
    } else {
        1 + first_failure(found.skip(1))
    }
}

proof fn lemma_first_failure(found: Seq<Result<i64, String>>, i: int)
    requires
        0 <= i <= found.len(),
        forall|k: int| 0 <= k < i ==> found[k] is Ok,
        i < found.len() ==> found[i] is Err,
    ensures
        first_failure(found) == i,
    decreases found.len(),
{
    if i > 0 {
        let rest = found.skip(1);
        assert forall|k: int| 0 <= k < i - 1 implies rest[k] is Ok by {
            assert(found[k + 1] is Ok);
        }
        lemma_first_failure(rest, i - 1);
    }
}

/// The groups that were found for their names, in order, or what is said of the
/// first that was not.
pub fn resolve_group_ids(found: &Vec<Result<i64, String>>) -> (r: Result<Vec<i64>, String>)
    ensures
        match r {
            Err(e) => first_failure(found@) < found@.len() && Err::<i64, String>(e)
                == found@[first_failure(found@)],
            Ok(ids) => first_failure(found@) == found@.len() && ids@.len() == found@.len()
                && forall|i: int|
                0 <= i < ids@.len() ==> Ok::<i64, String>(#[trigger] ids@[i]) == found@[i],
        },
{
    let mut ids: Vec<i64> = Vec::new();
    let mut i: usize = 0;
    while i < found.len()
        invariant
            i <= found@.len(),
            ids@.len() == i,
            forall|k: int| 0 <= k < i ==> Ok::<i64, String>(#[trigger] ids@[k]) == found@[k],
        decreases found@.len() - i,
    {
        match &found[i] {
            Ok(id) => {
                ids.push(*id);
            },
            Err(e) => {
                proof {
                    assert forall|k: int| 0 <= k < i implies found@[k] is Ok by {
                        assert(Ok::<i64, String>(ids@[k]) == found@[k]);
                    }
                    lemma_first_failure(found@, i as int);
                }
                return Err(e.clone());
            },
        }
        i = i + 1;
    }
    proof {
        assert forall|k: int| 0 <= k < i implies found@[k] is Ok by {
            assert(Ok::<i64, String>(ids@[k]) == found@[k]);
        }
        lemma_first_failure(found@, i as int);
    }
    Ok(ids)
}

// ---------------------------------------------------------------------------
// rename

/// What the arguments of `host rename` ask for.
#[derive(Debug)]
pub struct RenameArgs {
    /// Refuse a name that is taken, where another one would be found for it.
    pub strict: bool,
    pub name: String,
    pub new_name: String,
}

/// Why a host is not renamed.
#[derive(Debug)]
pub enum RenameError {
    MissingName,
    MissingNewName,
    NotLauncher,
    NameTaken(String),
}

impl RenameError {
    /// What is said of the command.
    pub open spec fn text(self) -> Seq<char> {
        match self {
            RenameError::MissingName => "rename requires --name"@,
            RenameError::MissingNewName => "rename requires --new-name"@,
            RenameError::NotLauncher => "only launcher hosts can be renamed"@,
            RenameError::NameTaken(name) => "host name '"@ + name@ + "' already exists"@,
        }
    }

    /// What is said of the command.
    pub fn message(&self) -> (r: String)
        ensures
            r@ == self.text(),
    {
        match self {
            RenameError::MissingName => "rename requires --name".to_owned(),
            RenameError::MissingNewName => "rename requires --new-name".to_owned(),
            RenameError::NotLauncher => "only launcher hosts can be renamed".to_owned(),
            RenameError::NameTaken(name) => {
                let mut text = "host name '".to_owned();
                text.push_str(name.as_str());
                text.push_str("' already exists");
                text
            },
        }
    }
}

/// What the arguments of `host rename` hold: whether to be strict, and the names.
pub open spec fn rename_of(args: Seq<Seq<char>>) -> (bool, Option<Seq<char>>, Option<Seq<char>>) {
    let (strict, a) = flagged(args, "--strict"@);
    let (name, a) = taken(a, "--name"@);
    let (new_name, a) = taken(a, "--new-name"@);
    (strict, name, new_name)
}

impl RenameArgs {
    /// Read the arguments of `host rename`.
    pub fn parse(args: &[String]) -> (r: Result<RenameArgs, RenameError>)
        ensures
            ({
                let (strict, name, new_name) = rename_of(texts(args@));
                if name is None {
                    r == Err::<RenameArgs, RenameError>(RenameError::MissingName)
                } else if new_name is None {
                    r == Err::<RenameArgs, RenameError>(RenameError::MissingNewName)
                } else {
                    r matches Ok(p) && p.strict == strict && p.name@ == name->0 && p.new_name@
                        == new_name->0
                }
            }),
    {
        let mut args = copied_args(args);
        let strict = take_flag(&mut args, "--strict");
        let name = match take_opt(&mut args, "--name") {
            Some(v) => v,
            None => return Err(RenameError::MissingName),
        };
        let new_name = match take_opt(&mut args, "--new-name") {
            Some(v) => v,
            None => return Err(RenameError::MissingNewName),
        };
        Ok(RenameArgs { strict, name, new_name })
    }
}

/// Whether a host may be renamed at all.
pub fn check_rename(managed: &ManagedHost) -> (r: Result<(), RenameError>)
    ensures
        managed.source == HostSource::Launcher ==> r == Ok::<(), RenameError>(()),
        managed.source != HostSource::Launcher ==> r == Err::<(), RenameError>(
            RenameError::NotLauncher,
        ),
{
    if managed.source == HostSource::Launcher {
        Ok(())
    } else {
        Err(RenameError::NotLauncher)
    }
}

/// The change that gives a host another name and touches nothing else.
pub fn name_update(name: String) -> (r: HostUpdate)
    ensures
        r == (HostUpdate { name: Some(name), ..HostUpdate::nothing() }),
{
    let mut update = HostUpdate::default();
    update.name = Some(name);
    update
}

// ---------------------------------------------------------------------------
// delete

/// What the arguments of `host delete` ask for.
#[derive(Debug)]
pub enum DeleteArgs {
    /// The user has not agreed to it.
    Unconfirmed,
    /// No host is named.
    MissingName,
    Named(String),
}

/// What became of a host that was to be deleted.
#[derive(Debug, Clone, Copy, PartialEq, Eq, Structural)]
pub enum DeleteHostOutcome {
    Deleted,
    NotFound,
    NotLauncher,
}

/// What the arguments of `host delete` hold: whether it is agreed to, and the name.
pub open spec fn delete_of(args: Seq<Seq<char>>) -> (bool, Option<Seq<char>>) {
    let (yes, a) = flagged(args, "--yes"@);
    (yes, taken(a, "--name"@).0)
}

/// Read the arguments of `host delete`.
pub fn parse_delete(args: &[String]) -> (r: DeleteArgs)
    ensures
        ({
            let (yes, name) = delete_of(texts(args@));
            if !yes {
                r is Unconfirmed
            } else if name is None {
                r is MissingName
            } else {
                r matches DeleteArgs::Named(n) && n@ == name->0
            }
        }),
{
    let mut args = copied_args(args);
    if !take_flag(&mut args, "--yes") {
        return DeleteArgs::Unconfirmed;
    }
    match take_opt(&mut args, "--name") {
        Some(v) => DeleteArgs::Named(v),
        None => DeleteArgs::MissingName,
    }
}

impl DeleteArgs {
    /// Why nothing is deleted: the exit status, or none where the command fails, and
    /// what is said.
    pub open spec fn refusal_text(self) -> Option<(Option<i32>, Seq<char>)> {
        match self {
            DeleteArgs::Unconfirmed => Some((Some(1), "delete requires --yes"@)),
            DeleteArgs::MissingName => Some((None, "delete requires --name"@)),
            DeleteArgs::Named(_) => None,
        }
    }

    /// Why nothing is deleted: the exit status, or none where the command fails, and
    /// what is said.
    pub fn refusal(&self) -> (r: Option<(Option<i32>, &'static str)>)
        ensures
            match r {
                Some((status, text)) => self.refusal_text() == Some((status, text@)),
                None => self.refusal_text() is None,
            },
    {
        match self {
            DeleteArgs::Unconfirmed => Some((Some(1), "delete requires --yes")),
            DeleteArgs::MissingName => Some((None, "delete requires --name")),
            DeleteArgs::Named(_) => None,
        }
    }
}

impl DeleteHostOutcome {
    /// Whether the hosts are read again.
    pub fn reloads(self) -> (r: bool)
        ensures
            r == (self == DeleteHostOutcome::Deleted),
    {
        match self {
            DeleteHostOutcome::Deleted => true,
            _ => false,
        }
    }

    /// The exit status, and what is said.
    pub open spec fn report_text(self) -> (int, Option<Seq<char>>) {
        match self {
            DeleteHostOutcome::Deleted => (0, None),
            DeleteHostOutcome::NotFound => (1, Some("host not found"@)),
            DeleteHostOutcome::NotLauncher => (
                2,
                Some("only launcher-managed hosts can be deleted"@),
            ),
        }
    }

    /// The exit status, and what is said.
    pub fn report(self) -> (r: (i32, Option<&'static str>))
        ensures
            (r.0 as int, crate::text::str_opt(r.1)) == self.report_text(),
    {
        match self {
            DeleteHostOutcome::Deleted => (0, None),
            DeleteHostOutcome::NotFound => (1, Some("host not found")),
            DeleteHostOutcome::NotLauncher => (
                2,
                Some("only launcher-managed hosts can be deleted"),
            ),
        }
    }
}

// ---------------------------------------------------------------------------
// duplicate

/// What the arguments of `host duplicate` hold: the name, and the new one.
pub open spec fn duplicate_of(args: Seq<Seq<char>>) -> (Option<Seq<char>>, Option<Seq<char>>) {
    let (name, a) = taken(args, "--name"@);
    (name, taken(a, "--new-name"@).0)
}

/// Read the arguments of `host duplicate`; the new name may be left out.
pub fn parse_duplicate(args: &[String]) -> (r: Result<(String, Option<String>), &'static str>)
    ensures
        match r {
            Ok((name, new_name)) => (Some(name@), text_opt(new_name)) == duplicate_of(
                texts(args@),
            ),
            Err(text) => duplicate_of(texts(args@)).0 is None && text@
                == "duplicate requires --name"@,
        },
{
    let mut args = copied_args(args);
    match take_opt(&mut args, "--name") {
        Some(name) => {
            let new_name = take_opt(&mut args, "--new-name");
            Ok((name, new_name))
        },
        None => Err("duplicate requires --name"),
    }
}

/// The rename that follows the copy of a host, if its name is not the free one that
/// was found for the name asked for, and the name the copy has in the end.
pub fn after_duplicate(unique: Option<String>, copy_name: String) -> (r: (Option<HostUpdate>, String))
    ensures
        unique is None ==> r == (None::<HostUpdate>, copy_name),
        unique is Some && unique->0@ == copy_name@ ==> r == (None::<HostUpdate>, copy_name),
        unique is Some && unique->0@ != copy_name@ ==> r == (
            Some(HostUpdate { name: unique, ..HostUpdate::nothing() }),
            unique->0,
        ),
{
    match unique {
        Some(u) => {
            if str::eq(u.as_str(), copy_name.as_str()) {
                (None, copy_name)
            } else {
                (Some(name_update(u.clone())), u)
            }
        },
        None => (None, copy_name),
    }
}

/// A host without a row under the name asked for, as it is handed on to be copied.
pub fn renamed_legacy(host: SshHost, meta: HostMetadata, requested: Option<String>) -> (r: (
    SshHost,
    HostMetadata,
))
    ensures
        requested is None ==> r == (host, meta),
        requested is Some ==> r == (
            SshHost { name: requested->0, ..host },
            HostMetadata { host_name: requested->0, ..meta },
        ),
{
    match requested {
        Some(name) => {
            let mut host = host;
            let mut meta = meta;
            host.name = name.clone();
            meta.host_name = name;
            (host, meta)
        },
        None => (host, meta),
    }
}

/// The first lookup that failed is the one before which all went well.
pub proof fn law_first_failure(found: Seq<Result<i64, String>>)
    ensures
        0 <= first_failure(found) <= found.len(),
        forall|i: int| 0 <= i < first_failure(found) ==> (#[trigger] found[i]) is Ok,
        first_failure(found) < found.len() ==> found[first_failure(found)] is Err,
    decreases found.len(),
{
    if found.len() > 0 && found[0] is Ok {
        let rest = found.skip(1);
        law_first_failure(rest);
        assert forall|i: int| 0 <= i < first_failure(found) implies (#[trigger] found[i]) is Ok by {
            if i > 0 {
                assert(rest[i - 1] == found[i]);
            }
        }
        if first_failure(found) < found.len() {
            assert(rest[first_failure(rest)] == found[first_failure(found)]);
        }
    }
}

/// The word by which a command is called.
pub open spec fn word_for(command: HostCommand) -> Seq<char> {
    match command {
        HostCommand::List => "list"@,
        HostCommand::Show => "show"@,
        HostCommand::Resolve => "resolve"@,
        HostCommand::Search => "search"@,
        HostCommand::Connect => "connect"@,
        HostCommand::Add => "add"@,
        HostCommand::Edit => "edit"@,
        HostCommand::Rename => "rename"@,
        HostCommand::Delete => "delete"@,
        HostCommand::Duplicate => "duplicate"@,
    }
}

/// Every command is called by its own word, and a word that is none calls none.
pub proof fn law_commands_have_their_words(command: HostCommand, word: Seq<char>)
    ensures
        command_named(word_for(command)) == Some(command),
        command_named(word) is Some ==> word == word_for(command_named(word)->0),
{
    reveal_strlit("list");
    reveal_strlit("show");
    reveal_strlit("resolve");
    reveal_strlit("search");
    reveal_strlit("connect");
    reveal_strlit("add");
    reveal_strlit("edit");
    reveal_strlit("rename");
    reveal_strlit("delete");
    reveal_strlit("duplicate");
    assert("list"@.len() == 4 && "show"@.len() == 4 && "edit"@.len() == 4 && "add"@.len() == 3);
    assert("resolve"@.len() == 7 && "connect"@.len() == 7 && "duplicate"@.len() == 9);
    assert("search"@.len() == 6 && "rename"@.len() == 6 && "delete"@.len() == 6);
    assert("list"@[0] == 'l' && "show"@[0] == 's' && "edit"@[0] == 'e');
    assert("resolve"@[0] == 'r' && "connect"@[0] == 'c');
    assert("search"@[0] == 's' && "rename"@[0] == 'r' && "delete"@[0] == 'd');
}

/// Wrong use is answered: nothing after `host` is said to be missing, an unknown word is
/// named, and a command says which argument it lacks.
pub proof fn law_usage_is_explained(usage: HostUsage, command: HostCommand)
    ensures
        usage is Missing ==> usage.lines_text() == seq!["missing host subcommand"@],
        usage is Unknown ==> usage.lines_text().len() == 2 && usage.lines_text()[0]
            == "unknown host subcommand '"@ + usage->Unknown_0@ + "'"@,
        command.needs_text() is Some <==> command == HostCommand::Show || command
            == HostCommand::Resolve || command == HostCommand::Search || command
            == HostCommand::Connect,
        command == HostCommand::Search ==> command.needs_text() == Some(
            "search requires <query>"@,
        ),
        command.needs_text() is Some && command != HostCommand::Search ==> command.needs_text()
            == Some(word_for(command) + " requires <name>"@),
{
    reveal_strlit("show");
    reveal_strlit("resolve");
    reveal_strlit("connect");
    reveal_strlit(" requires <name>");
    reveal_strlit("show requires <name>");
    reveal_strlit("resolve requires <name>");
    reveal_strlit("connect requires <name>");
    assert("show"@ + " requires <name>"@ =~= "show requires <name>"@);
    assert("resolve"@ + " requires <name>"@ =~= "resolve requires <name>"@);
    assert("connect"@ + " requires <name>"@ =~= "connect requires <name>"@);
}

/// A list is narrowed to every tag that is given and to the first group, in whatever
/// order they come, and the other arguments are left.
pub proof fn law_list_is_narrowed_as_asked(items: Seq<Arg>)
    requires
        well_spelled(items, list_options(), Set::empty()),
    ensures
        list_filters(spelled(items)).0 == asked_all(items, "--tag"@),
        list_filters(spelled(items)).1 == asked(items, "--group"@),
        list_filters(spelled(items)).2 == spelled(
            without_first(without_all(items, "--tag"@), "--group"@),
        ),
{
    reveal_strlit("--tag");
    reveal_strlit("--group");
    assert("--tag"@.len() == 5 && "--group"@.len() == 7);
    lemma_options_are_taken(items, list_options(), Set::empty(), "--tag"@);
    lemma_others_are_left_by_all(items, list_options(), Set::empty(), "--tag"@);
    lemma_option_is_taken(
        without_all(items, "--tag"@),
        list_options(),
        Set::empty(),
        "--group"@,
    );
}

/// The options by which a list is narrowed.
pub open spec fn list_options() -> Set<Seq<char>> {
    Set::new(|w: Seq<char>| w == "--tag"@ || w == "--group"@)
}

/// The flags of a rename, and its options.
pub open spec fn rename_options() -> Set<Seq<char>> {
    Set::new(|w: Seq<char>| w == "--name"@ || w == "--new-name"@)
}

/// What a rename asks for is what its arguments say, in whatever order they come.
pub proof fn law_rename_is_read(items: Seq<Arg>)
    requires
        well_spelled(items, rename_options(), Set::new(|w: Seq<char>| w == "--strict"@)),
    ensures
        rename_of(spelled(items)) == (
            told(items, "--strict"@),
            asked(items, "--name"@),
            asked(items, "--new-name"@),
        ),
{
    reveal_strlit("--strict");
    reveal_strlit("--name");
    reveal_strlit("--new-name");
    assert("--strict"@.len() == 8 && "--name"@.len() == 6 && "--new-name"@.len() == 10);
    let flags = Set::new(|w: Seq<char>| w == "--strict"@);
    lemma_flag_is_taken(items, rename_options(), flags, "--strict"@);
    lemma_others_are_left(items, rename_options(), flags, "--strict"@);
    let a = without_first(items, "--strict"@);
    lemma_option_is_taken(a, rename_options(), flags, "--name"@);
    lemma_others_are_left(a, rename_options(), flags, "--name"@);
    lemma_option_is_taken(
        without_first(a, "--name"@),
        rename_options(),
        flags,
        "--new-name"@,
    );
}

/// What a deletion asks for is what its arguments say; nothing is deleted that was not
/// agreed to.
pub proof fn law_delete_is_read(items: Seq<Arg>)
    requires
        well_spelled(
            items,
            Set::new(|w: Seq<char>| w == "--name"@),
            Set::new(|w: Seq<char>| w == "--yes"@),
        ),
    ensures
        delete_of(spelled(items)) == (told(items, "--yes"@), asked(items, "--name"@)),
{
    reveal_strlit("--yes");
    reveal_strlit("--name");
    assert("--yes"@.len() == 5 && "--name"@.len() == 6);
    let options = Set::new(|w: Seq<char>| w == "--name"@);
    let flags = Set::new(|w: Seq<char>| w == "--yes"@);
    lemma_flag_is_taken(items, options, flags, "--yes"@);
    lemma_others_are_left(items, options, flags, "--yes"@);
    lemma_option_is_taken(without_first(items, "--yes"@), options, flags, "--name"@);
}

/// What a duplication asks for is what its arguments say.
pub proof fn law_duplicate_is_read(items: Seq<Arg>)
    requires
        well_spelled(items, rename_options(), Set::empty()),
    ensures
        duplicate_of(spelled(items)) == (asked(items, "--name"@), asked(items, "--new-name"@)),
{
    reveal_strlit("--name");
    reveal_strlit("--new-name");
    assert("--name"@.len() == 6 && "--new-name"@.len() == 10);
    lemma_option_is_taken(items, rename_options(), Set::empty(), "--name"@);
    lemma_others_are_left(items, rename_options(), Set::empty(), "--name"@);
    lemma_option_is_taken(
        without_first(items, "--name"@),
        rename_options(),
        Set::empty(),
        "--new-name"@,
    );
}

/// More output is asked for by either flag.
pub proof fn law_verbosity_is_read(items: Seq<Arg>)
    requires
        well_spelled(
            items,
            Set::empty(),
            Set::new(|w: Seq<char>| w == "--verbose"@ || w == "-v"@),
        ),
    ensures
        verbosity_of(spelled(items)).0 <==> told(items, "--verbose"@) || told(items, "-v"@),
{
    reveal_strlit("--verbose");
    reveal_strlit("-v");
    assert("--verbose"@.len() == 9 && "-v"@.len() == 2);
    let flags = Set::new(|w: Seq<char>| w == "--verbose"@ || w == "-v"@);
    lemma_flag_is_taken(items, Set::empty(), flags, "--verbose"@);
    lemma_others_are_left(items, Set::empty(), flags, "--verbose"@);
    lemma_flag_is_taken(without_first(items, "--verbose"@), Set::empty(), flags, "-v"@);
}

/// What becomes of a deletion, and what is said of one that was not made.
pub proof fn law_deletion_is_reported(outcome: DeleteHostOutcome, args: DeleteArgs)
    ensures
        outcome.report_text().0 == 0 <==> outcome == DeleteHostOutcome::Deleted,
        outcome.report_text().1 is None <==> outcome == DeleteHostOutcome::Deleted,
        outcome == DeleteHostOutcome::NotFound ==> outcome.report_text() == (
            1int,
            Some("host not found"@),
        ),
        outcome == DeleteHostOutcome::NotLauncher ==> outcome.report_text() == (
            2int,
            Some("only launcher-managed hosts can be deleted"@),
        ),
        args.refusal_text() is None <==> args is Named,
        args is Unconfirmed ==> args.refusal_text() == Some(
            (Some(1i32), "delete requires --yes"@),
        ),
        args is MissingName ==> args.refusal_text() == Some(
            (None::<i32>, "delete requires --name"@),
        ),
{
}

/// What is said of a rename that is refused.
pub proof fn law_rename_refusals(name: String)
    ensures
        RenameError::MissingName.text() == "rename requires --name"@,
        RenameError::MissingNewName.text() == "rename requires --new-name"@,
        RenameError::NotLauncher.text() == "only launcher hosts can be renamed"@,
        RenameError::NameTaken(name).text() == "host name '"@ + name@ + "' already exists"@,
{
}

} // verus!
