//! Where settings and data live, and how a directory of an older release is
//! taken over.

use vstd::prelude::*;

use crate::text::{clone_texts, str_opt, texts, trim_text, trimmed};

verus! {

/// The two directories of the application.
#[derive(Debug, Clone, Copy, PartialEq, Eq, Structural)]
pub enum DirKind {
    /// Settings.
    Config,
    /// The database and the session logs.
    Data,
}

/// Where a directory was found to live.
#[derive(Debug)]
pub enum DirChoice {
    /// An environment variable names it outright.
    Override(JoinedPath),
    /// Below the platform's own directory for it.
    Platform(JoinedPath),
    /// Below the home directory, where an older release may have left one to take
    /// over by way of a staging directory.
    Home { dir: JoinedPath, legacy: JoinedPath, staging: JoinedPath },
    /// No variable names a home directory.
    NoHome,
}

impl DirChoice {
    /// What is said where there is no directory.
    pub open spec fn error_text(self) -> Option<Seq<char>> {
        match self {
            DirChoice::NoHome => Some("HOME/USERPROFILE not set"@),
            _ => None,
        }
    }

    /// What is said where there is no directory.
    pub fn error(&self) -> (r: Option<&'static str>)
        ensures
            str_opt(r) == self.error_text(),
    {
        match self {
            DirChoice::NoHome => Some("HOME/USERPROFILE not set"),
            _ => None,
        }
    }
}

impl DirKind {
    /// The variables that name the directory, the current one first.
    pub open spec fn override_names(self) -> (Seq<char>, Seq<char>) {
        match self {
            DirKind::Config => ("SSHUB_CONFIG_DIR"@, "SSH_LAUNCHER_CONFIG_DIR"@),
            DirKind::Data => ("SSHUB_DATA_DIR"@, "SSH_LAUNCHER_DATA_DIR"@),
        }
    }

    /// The variable that names the platform's own directory on Windows.
    pub open spec fn platform_name(self) -> Seq<char> {
        match self {
            DirKind::Config => "APPDATA"@,
            DirKind::Data => "LOCALAPPDATA"@,
        }
    }

    /// The directory below the home directory.
    pub open spec fn below_home(self) -> Seq<char> {
        match self {
            DirKind::Config => ".config/sshub"@,
            DirKind::Data => ".local/share/sshub"@,
        }
    }

    /// The directory of an older release below the home directory.
    pub open spec fn legacy_below_home(self) -> Seq<char> {
        match self {
            DirKind::Config => ".config/ssh-launcher"@,
            DirKind::Data => ".local/share/ssh-launcher"@,
        }
    }

    /// The directory beside it into which one of an older release is copied.
    pub open spec fn staging_below_home(self) -> Seq<char> {
        match self {
            DirKind::Config => ".config/sshub.migrating"@,
            DirKind::Data => ".local/share/sshub.migrating"@,
        }
    }

    /// The variables that may name the directory, the current one first.
    pub fn override_vars(self) -> (r: (&'static str, &'static str))
        ensures
            (r.0@, r.1@) == self.override_names(),
    {
        match self {
            DirKind::Config => ("SSHUB_CONFIG_DIR", "SSH_LAUNCHER_CONFIG_DIR"),
            DirKind::Data => ("SSHUB_DATA_DIR", "SSH_LAUNCHER_DATA_DIR"),
        }
    }

    /// The variable that names the platform's own directory on Windows.
    pub fn platform_var(self) -> (r: &'static str)
        ensures
            r@ == self.platform_name(),
    {
        match self {
            DirKind::Config => "APPDATA",
            DirKind::Data => "LOCALAPPDATA",
        }
    }

    fn home_parts(self) -> (r: (&'static str, &'static str, &'static str))
        ensures
            r.0@ == self.below_home(),
            r.1@ == self.legacy_below_home(),
            r.2@ == self.staging_below_home(),
    {
        match self {
            DirKind::Config => (
                ".config/sshub",
                ".config/ssh-launcher",
                ".config/sshub.migrating",
            ),
            DirKind::Data => (
                ".local/share/sshub",
                ".local/share/ssh-launcher",
                ".local/share/sshub.migrating",
            ),
        }
    }
}

/// Whether the value of a variable names a directory: it is set, and not blank.
pub open spec fn names_dir(value: Option<Seq<char>>) -> bool {
    value is Some && trimmed(value->0).len() > 0
}

/// A path: a directory, and relative paths that are joined to it, one after the other,
/// by the rules of the platform.
#[derive(Debug)]
pub struct JoinedPath {
    pub base: String,
    pub parts: Vec<String>,
}

/// A path, as texts.
pub ghost struct PathView {
    pub base: Seq<char>,
    pub parts: Seq<Seq<char>>,
}

impl View for JoinedPath {
    type V = PathView;

    open spec fn view(&self) -> PathView {
        PathView { base: self.base@, parts: texts(self.parts@) }
    }
}

impl PathView {
    /// The path with one more part joined to it.
    pub open spec fn with(self, part: Seq<char>) -> PathView {
        PathView { base: self.base, parts: self.parts.push(part) }
    }
}

/// A path with nothing joined to it.
pub open spec fn plain_path(base: Seq<char>) -> PathView {
    PathView { base, parts: Seq::empty() }
}

impl JoinedPath {
    /// A path with nothing joined to it.
    pub fn new(base: &str) -> (r: JoinedPath)
        ensures
            r@ == plain_path(base@),
    {
        let r = JoinedPath { base: base.to_owned(), parts: Vec::new() };
        assert(texts(r.parts@) =~= Seq::empty());
        r
    }

    /// The path with a relative path joined to it.
    pub fn joined(&self, part: &str) -> (r: JoinedPath)
        ensures
            r@ == self@.with(part@),
    {
        let mut parts = clone_texts(&self.parts);
        let ghost before = texts(parts@);
        parts.push(part.to_owned());
        assert(texts(parts@) =~= before.push(part@));
        JoinedPath { base: self.base.clone(), parts }
    }
}

/// What the variables of the environment say, as far as they are set.
pub struct Environment<'a> {
    /// The variable of the current name.
    pub current: Option<&'a str>,
    /// The variable of the older name.
    pub older: Option<&'a str>,
    /// The platform's own directory; none but on Windows.
    pub platform: Option<&'a str>,
    pub home: Option<&'a str>,
    pub user_profile: Option<&'a str>,
    pub windows: bool,
}

/// The home directory: `HOME`, or else the user's profile.
pub open spec fn home_of(env: Environment) -> Option<Seq<char>> {
    if env.home is Some {
        str_opt(env.home)
    } else {
        str_opt(env.user_profile)
    }
}

/// Whether a choice of directory is the one the environment asks for.
pub open spec fn chosen(kind: DirKind, env: Environment, choice: DirChoice) -> bool {
    if names_dir(str_opt(env.current)) {
        choice matches DirChoice::Override(d) && d@ == plain_path(str_opt(env.current)->0)
    } else if names_dir(str_opt(env.older)) {
        choice matches DirChoice::Override(d) && d@ == plain_path(str_opt(env.older)->0)
    } else if env.windows && names_dir(str_opt(env.platform)) {
        choice matches DirChoice::Platform(d) && d@ == plain_path(str_opt(env.platform)->0).with(
            "sshub"@,
        )
    } else if home_of(env) is Some {
        let home = plain_path(home_of(env)->0);
        choice matches DirChoice::Home { dir, legacy, staging } && dir@ == home.with(
            kind.below_home(),
        ) && legacy@ == home.with(kind.legacy_below_home()) && staging@ == home.with(
            kind.staging_below_home(),
        )
    } else {
        choice is NoHome
    }
}

/// The staging directory is the directory with an ending, so it lies beside it.
pub proof fn law_staging_is_beside(kind: DirKind)
    ensures
        kind.staging_below_home() == kind.below_home() + ".migrating"@,
{
    reveal_strlit(".config/sshub");
    reveal_strlit(".config/sshub.migrating");
    reveal_strlit(".local/share/sshub");
    reveal_strlit(".local/share/sshub.migrating");
    reveal_strlit(".migrating");
    assert(kind.staging_below_home() =~= kind.below_home() + ".migrating"@);
}

/// The value of a variable, if it names a directory; a blank value is as good as
/// none, so that it cannot stand for the current directory.
pub fn env_dir(value: Option<&str>) -> (r: Option<String>)
    ensures
        names_dir(str_opt(value)) ==> crate::text::text_opt(r) == str_opt(value),
        !names_dir(str_opt(value)) ==> r is None,
{
    match value {
        Some(v) => {
            let t = trim_text(v);
            let chars = crate::text::chars_of(t.as_str());
            if chars.len() > 0 {
                Some(v.to_owned())
            } else {
                None
            }
        },
        None => None,
    }
}

/// Choose a directory of the application from the environment.
pub fn choose_dir(kind: DirKind, env: &Environment) -> (r: DirChoice)
    ensures
        chosen(kind, *env, r),
{
    if let Some(d) = env_dir(env.current) {
        return DirChoice::Override(JoinedPath::new(d.as_str()));
    }
    if let Some(d) = env_dir(env.older) {
        return DirChoice::Override(JoinedPath::new(d.as_str()));
    }
    if env.windows {
        if let Some(d) = env_dir(env.platform) {
            return DirChoice::Platform(JoinedPath::new(d.as_str()).joined("sshub"));
        }
    }
    let home: Option<&str> = if env.home.is_some() {
        env.home
    } else {
        env.user_profile
    };
    match home {
        Some(h) => {
            let parts = kind.home_parts();
            let home = JoinedPath::new(h);
            DirChoice::Home {
                dir: home.joined(parts.0),
                legacy: home.joined(parts.1),
                staging: home.joined(parts.2),
            }
        },
        None => DirChoice::NoHome,
    }
}

/// The settings file in the settings directory.
pub fn config_file_path(config_dir: &JoinedPath) -> (r: JoinedPath)
    ensures
        r@ == config_dir@.with("config.toml"@),
{
    config_dir.joined("config.toml")
}

/// The file that is written first and then renamed over the settings file.
pub fn config_temp_path(config_dir: &JoinedPath) -> (r: JoinedPath)
    ensures
        r@ == config_dir@.with("config.toml.tmp"@),
{
    config_dir.joined("config.toml.tmp")
}

/// How far the take-over of an older release's directory has come.
#[derive(Debug, Clone, Copy, PartialEq, Eq, Structural)]
pub enum Migration {
    /// A staging directory of an earlier try is being removed.
    Clearing,
    /// The old directory is being copied to the staging directory.
    Copying,
    /// The complete copy is being renamed to its final name.
    Placing,
    /// What a failed try left in the staging directory is being removed.
    Abandoning,
    /// The directory is in place, and its permissions are being narrowed.
    Restricting,
    /// Nothing is left to do.
    Done,
}

/// How a take-over starts: only where there is an old directory and no new one.
pub open spec fn migration_from(new_exists: bool, legacy_exists: bool) -> Migration {
    if new_exists || !legacy_exists {
        Migration::Done
    } else {
        Migration::Clearing
    }
}

/// The step after `at`, which succeeded or not. Only a complete copy is renamed.
pub open spec fn migration_next(at: Migration, ok: bool) -> Migration {
    match at {
        Migration::Clearing => Migration::Copying,
        Migration::Copying => if ok {
            Migration::Placing
        } else {
            Migration::Abandoning
        },
        Migration::Placing => if ok {
            Migration::Restricting
        } else {
            Migration::Abandoning
        },
        Migration::Abandoning => Migration::Done,
        Migration::Restricting => Migration::Done,
        Migration::Done => Migration::Done,
    }
}

/// Start taking over an older release's directory.
pub fn start_migration(new_exists: bool, legacy_exists: bool) -> (r: Migration)
    ensures
        r == migration_from(new_exists, legacy_exists),
{
    if new_exists || !legacy_exists {
        Migration::Done
    } else {
        Migration::Clearing
    }
}

/// Go on with a take-over after a step that succeeded or not.
pub fn advance_migration(at: Migration, ok: bool) -> (r: Migration)
    ensures
        r == migration_next(at, ok),
{
    match at {
        Migration::Clearing => Migration::Copying,
        Migration::Copying => if ok {
            Migration::Placing
        } else {
            Migration::Abandoning
        },
        Migration::Placing => if ok {
            Migration::Restricting
        } else {
            Migration::Abandoning
        },
        Migration::Abandoning => Migration::Done,
        Migration::Restricting => Migration::Done,
        Migration::Done => Migration::Done,
    }
}

/// What is said where the directory of an older release could not be taken over.
pub fn migration_warning(legacy_dir: &str, detail: &str) -> (r: String)
    ensures
        r@ == "Warning: failed to migrate data from "@ + legacy_dir@ + ": "@ + detail@,
{
    let mut text = "Warning: failed to migrate data from ".to_owned();
    text.push_str(legacy_dir);
    text.push_str(": ");
    text.push_str(detail);
    text
}

/// What the directories hold during a take-over.
pub ghost struct MigrationDisk {
    /// The new directory is there.
    pub placed: bool,
    /// The staging directory is there.
    pub staged: bool,
    /// The staging directory holds a complete copy.
    pub complete: bool,
    /// What was renamed to the new directory was a complete copy.
    pub placed_complete: bool,
}

/// What a step leaves on disk. A removal that fails leaves a staging directory, though
/// not a complete one; a copy that fails leaves part of the copy; a rename that fails
/// leaves everything as it was.
pub open spec fn migration_effect(at: Migration, ok: bool, disk: MigrationDisk) -> MigrationDisk {
    match at {
        Migration::Clearing => MigrationDisk {
            staged: disk.staged && !ok,
            complete: false,
            ..disk
        },
        Migration::Copying => MigrationDisk { staged: true, complete: ok, ..disk },
        Migration::Placing => if ok {
            MigrationDisk {
                placed: true,
                placed_complete: disk.complete,
                staged: false,
                complete: false,
            }
        } else {
            disk
        },
        Migration::Abandoning => MigrationDisk {
            staged: disk.staged && !ok,
            complete: false,
            ..disk
        },
        Migration::Restricting => disk,
        Migration::Done => disk,
    }
}

/// The disk after the steps with the given outcomes.
pub open spec fn migration_run(at: Migration, disk: MigrationDisk, outcomes: Seq<bool>) -> (
    Migration,
    MigrationDisk,
)
    decreases outcomes.len(),
{
    if outcomes.len() == 0 {
        (at, disk)
    } else {
        migration_run(
            migration_next(at, outcomes[0]),
            migration_effect(at, outcomes[0], disk),
            outcomes.skip(1),
        )
    }
}

/// Whether a directory that a failed try left is removed, if it comes to that.
pub open spec fn removal_succeeds(at: Migration, outcomes: Seq<bool>) -> bool
    decreases outcomes.len(),
{
    outcomes.len() > 0 ==> (at is Abandoning ==> outcomes[0]) && removal_succeeds(
        migration_next(at, outcomes[0]),
        outcomes.skip(1),
    )
}

/// What holds of the disk whenever a take-over is at a step.
spec fn migration_sound(at: Migration, disk: MigrationDisk) -> bool {
    &&& disk.placed ==> disk.placed_complete
    &&& at is Copying ==> !disk.placed
    &&& at is Placing ==> disk.complete && !disk.placed
    &&& at is Clearing ==> !disk.placed
}

/// Whether nothing is staged where a take-over is over.
spec fn migration_clean(at: Migration, disk: MigrationDisk) -> bool {
    at is Done || at is Restricting ==> !disk.staged
}

proof fn lemma_migration_run(at: Migration, disk: MigrationDisk, outcomes: Seq<bool>)
    requires
        migration_sound(at, disk),
    ensures
        migration_sound(
            migration_run(at, disk, outcomes).0,
            migration_run(at, disk, outcomes).1,
        ),
        migration_clean(at, disk) && removal_succeeds(at, outcomes) ==> migration_clean(
            migration_run(at, disk, outcomes).0,
            migration_run(at, disk, outcomes).1,
        ),
    decreases outcomes.len(),
{
    if outcomes.len() > 0 {
        lemma_migration_run(
            migration_next(at, outcomes[0]),
            migration_effect(at, outcomes[0], disk),
            outcomes.skip(1),
        );
    }
}

/// However the steps of a take-over turn out and wherever it is broken off, the
/// new directory is there only if it is a complete copy; and one that ran to its
/// end leaves no staging directory behind, unless that could not be removed.
pub proof fn law_migration_never_partial(staged: bool, outcomes: Seq<bool>)
    ensures
        ({
            let disk = MigrationDisk {
                placed: false,
                staged,
                complete: false,
                placed_complete: false,
            };
            let end = migration_run(migration_from(false, true), disk, outcomes);
            &&& end.1.placed ==> end.1.placed_complete
            &&& end.0 is Done && removal_succeeds(migration_from(false, true), outcomes)
                ==> !end.1.staged
        }),
{
    let disk = MigrationDisk { placed: false, staged, complete: false, placed_complete: false };
    lemma_migration_run(Migration::Clearing, disk, outcomes);
}

/// A take-over ends after at most four steps.
pub proof fn law_migration_ends(at: Migration, outcomes: Seq<bool>)
    requires
        outcomes.len() >= 4,
    ensures
        forall|disk: MigrationDisk| #[trigger]
            migration_run(at, disk, outcomes).0 is Done,
{
    assert forall|disk: MigrationDisk| #[trigger]
        migration_run(at, disk, outcomes).0 is Done by {
        lemma_migration_end(at, disk, outcomes);
    }
}

/// The most steps that can follow.
spec fn migration_steps(at: Migration) -> nat {
    match at {
        Migration::Clearing => 4,
        Migration::Copying => 3,
        Migration::Placing => 2,
        Migration::Abandoning => 1,
        Migration::Restricting => 1,
        Migration::Done => 0,
    }
}

proof fn lemma_migration_end(at: Migration, disk: MigrationDisk, outcomes: Seq<bool>)
    requires
        outcomes.len() >= migration_steps(at),
    ensures
        migration_run(at, disk, outcomes).0 is Done,
    decreases outcomes.len(),
{
    if outcomes.len() > 0 {
        lemma_migration_end(
            migration_next(at, outcomes[0]),
            migration_effect(at, outcomes[0], disk),
            outcomes.skip(1),
        );
    }
}

/// A take-over begins exactly where an older release has left a directory and there is no
/// new one, by clearing what an earlier try may have left; where every step goes well, a
/// complete copy is in place after four steps and nothing is left staged.
pub proof fn law_migration_goes_through(staged: bool, new_exists: bool, legacy_exists: bool)
    ensures
        migration_from(new_exists, legacy_exists) is Done <==> new_exists || !legacy_exists,
        !new_exists && legacy_exists ==> migration_from(new_exists, legacy_exists) is Clearing,
        ({
            let disk = MigrationDisk {
                placed: false,
                staged,
                complete: false,
                placed_complete: false,
            };
            let end = migration_run(
                migration_from(false, true),
                disk,
                seq![true, true, true, true],
            );
            end.0 is Done && end.1.placed && end.1.placed_complete && !end.1.staged
        }),
        migration_next(Migration::Placing, true) is Restricting,
        migration_next(Migration::Copying, false) is Abandoning,
        migration_next(Migration::Placing, false) is Abandoning,
{
    let disk = MigrationDisk { placed: false, staged, complete: false, placed_complete: false };
    let o = seq![true, true, true, true];
    reveal_with_fuel(migration_run, 5);
    assert(o.skip(1).skip(1).skip(1).skip(1).len() == 0);
}

/// The variable of the current name wins over the older one, either wins over the
/// platform's directory, and that wins over the home directory, which is looked for only
/// on Windows in that order. A variable that is blank is as good as none, and a variable
/// that names a directory is taken as it is.
pub proof fn law_directory_is_chosen(kind: DirKind, env: Environment, choice: DirChoice)
    requires
        chosen(kind, env, choice),
    ensures
        ({
            let names = |v: Option<&str>| v is Some && trimmed(v->0@).len() > 0;
            let given = names(env.current) || names(env.older);
            let platform = !given && env.windows && names(env.platform);
            let home = !given && !platform && (env.home is Some || env.user_profile is Some);
            &&& (choice is Override <==> given)
            &&& (choice is Platform <==> platform)
            &&& (choice is Home <==> home)
            &&& (choice is NoHome <==> !given && !platform && env.home is None
                && env.user_profile is None)
            &&& (names(env.current) ==> choice->Override_0@.base == env.current->0@)
            &&& (!names(env.current) && names(env.older) ==> choice->Override_0@.base
                == env.older->0@)
            &&& (given ==> choice->Override_0@.parts.len() == 0)
            &&& (platform ==> choice->Platform_0@.base == env.platform->0@
                && choice->Platform_0@.parts == seq!["sshub"@])
            &&& (home ==> {
                let at = if env.home is Some {
                    env.home->0@
                } else {
                    env.user_profile->0@
                };
                &&& choice->dir@.base == at && choice->legacy@.base == at && choice->staging@.base
                    == at
                &&& choice->dir@.parts == seq![kind.below_home()]
                &&& choice->legacy@.parts == seq![kind.legacy_below_home()]
                &&& choice->staging@.parts == seq![kind.staging_below_home()]
            })
        }),
{
    if choice is Platform {
        assert(choice->Platform_0@.parts =~= seq!["sshub"@]);
    }
    if choice is Home {
        assert(choice->dir@.parts =~= seq![kind.below_home()]);
        assert(choice->legacy@.parts =~= seq![kind.legacy_below_home()]);
        assert(choice->staging@.parts =~= seq![kind.staging_below_home()]);
    }
}

/// Settings and data have directories and variables of their own, and so have the current
/// release and the older one.
pub proof fn law_directories_by_name()
    ensures
        DirKind::Config.below_home() == ".config/sshub"@,
        DirKind::Data.below_home() == ".local/share/sshub"@,
        DirKind::Config.legacy_below_home() == ".config/ssh-launcher"@,
        DirKind::Data.legacy_below_home() == ".local/share/ssh-launcher"@,
        DirKind::Config.override_names() == ("SSHUB_CONFIG_DIR"@, "SSH_LAUNCHER_CONFIG_DIR"@),
        DirKind::Data.override_names() == ("SSHUB_DATA_DIR"@, "SSH_LAUNCHER_DATA_DIR"@),
        DirKind::Config.platform_name() == "APPDATA"@,
        DirKind::Data.platform_name() == "LOCALAPPDATA"@,
{
}

/// Joining adds a part at the end and keeps the base and the other parts.
pub proof fn law_joining_adds_one_part(path: PathView, part: Seq<char>)
    ensures
        path.with(part).base == path.base,
        path.with(part).parts.len() == path.parts.len() + 1,
        path.with(part).parts.last() == part,
        path.with(part).parts.drop_last() == path.parts,
        plain_path(part).base == part && plain_path(part).parts.len() == 0,
{
    assert(path.with(part).parts.drop_last() =~= path.parts);
}

/// Something is said exactly where no variable names a home directory.
pub proof fn law_only_a_missing_home_is_said(choice: DirChoice)
    ensures
        choice.error_text() is Some <==> choice is NoHome,
        choice is NoHome ==> choice.error_text()->0 == "HOME/USERPROFILE not set"@,
{
}

} // verus!
