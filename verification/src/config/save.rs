//! Replacing the settings file as a whole.
//!
//! New settings are written to a file beside the settings file, which is then renamed
//! over it, so that the settings are the old ones or the new ones and nothing between.

use vstd::prelude::*;

verus! {

/// How far the replacement of the settings file has come.
#[derive(Debug, Clone, Copy, PartialEq, Eq, Structural)]
pub enum Saving {
    /// The directory is being made, and its permissions narrowed.
    Preparing,
    /// The new text is being put together.
    Merging,
    /// The new text is being written beside the settings file.
    Writing,
    /// The new file is being renamed over the settings file.
    Replacing,
    /// The settings are saved.
    Saved,
    /// Something failed, and nothing more is done.
    Failed,
}

/// The step after `at`, which succeeded or not. The first failure ends it.
pub open spec fn saving_next(at: Saving, ok: bool) -> Saving {
    match at {
        Saving::Saved => Saving::Saved,
        Saving::Failed => Saving::Failed,
        _ => if !ok {
            Saving::Failed
        } else {
            match at {
                Saving::Preparing => Saving::Merging,
                Saving::Merging => Saving::Writing,
                Saving::Writing => Saving::Replacing,
                _ => Saving::Saved,
            }
        },
    }
}

/// Go on with saving after a step that succeeded or not.
pub fn advance_saving(at: Saving, ok: bool) -> (r: Saving)
    ensures
        r == saving_next(at, ok),
{
    match at {
        Saving::Saved => Saving::Saved,
        Saving::Failed => Saving::Failed,
        Saving::Preparing => if ok {
            Saving::Merging
        } else {
            Saving::Failed
        },
        Saving::Merging => if ok {
            Saving::Writing
        } else {
            Saving::Failed
        },
        Saving::Writing => if ok {
            Saving::Replacing
        } else {
            Saving::Failed
        },
        Saving::Replacing => if ok {
            Saving::Saved
        } else {
            Saving::Failed
        },
    }
}

/// What the settings file and the file beside it hold, as far as they are there.
pub ghost struct SettingsDisk {
    pub settings: Option<Seq<char>>,
    pub beside: Option<Seq<char>>,
}

/// What a step leaves on disk. A write that fails leaves anything beside the settings
/// file; a rename that fails leaves everything as it was.
pub open spec fn saving_effect(
    at: Saving,
    ok: bool,
    text: Seq<char>,
    left: Option<Seq<char>>,
    disk: SettingsDisk,
) -> SettingsDisk {
    match at {
        Saving::Writing => SettingsDisk {
            beside: if ok {
                Some(text)
            } else {
                left
            },
            ..disk
        },
        Saving::Replacing => if ok {
            SettingsDisk { settings: disk.beside, beside: None }
        } else {
            disk
        },
        _ => disk,
    }
}

/// The disk after the steps with the given outcomes, each with what a failed write
/// would leave.
pub open spec fn saving_run(
    at: Saving,
    disk: SettingsDisk,
    text: Seq<char>,
    outcomes: Seq<(bool, Option<Seq<char>>)>,
) -> (Saving, SettingsDisk)
    decreases outcomes.len(),
{
    if outcomes.len() == 0 {
        (at, disk)
    } else {
        let (ok, left) = outcomes[0];
        saving_run(
            saving_next(at, ok),
            saving_effect(at, ok, text, left, disk),
            text,
            outcomes.skip(1),
        )
    }
}

/// What holds of the disk whenever saving is at a step.
spec fn saving_sound(
    at: Saving,
    disk: SettingsDisk,
    old_settings: Option<Seq<char>>,
    text: Seq<char>,
) -> bool {
    &&& at is Saved ==> disk.settings == Some(text)
    &&& !(at is Saved) ==> disk.settings == old_settings
    &&& at is Replacing ==> disk.beside == Some(text)
}

proof fn lemma_saving_run(
    at: Saving,
    disk: SettingsDisk,
    old_settings: Option<Seq<char>>,
    text: Seq<char>,
    outcomes: Seq<(bool, Option<Seq<char>>)>,
)
    requires
        saving_sound(at, disk, old_settings, text),
    ensures
        ({
            let end = saving_run(at, disk, text, outcomes);
            saving_sound(end.0, end.1, old_settings, text)
        }),
    decreases outcomes.len(),
{
    if outcomes.len() > 0 {
        let (ok, left) = outcomes[0];
        lemma_saving_run(
            saving_next(at, ok),
            saving_effect(at, ok, text, left, disk),
            old_settings,
            text,
            outcomes.skip(1),
        );
    }
}

/// However the steps turn out and wherever they are broken off, the settings file holds
/// all of the new text once it is saved, and exactly what it held before until then.
pub proof fn law_settings_replaced_whole(
    disk: SettingsDisk,
    text: Seq<char>,
    outcomes: Seq<(bool, Option<Seq<char>>)>,
)
    ensures
        ({
            let end = saving_run(Saving::Preparing, disk, text, outcomes);
            &&& end.0 is Saved ==> end.1.settings == Some(text)
            &&& !(end.0 is Saved) ==> end.1.settings == disk.settings
        }),
{
    lemma_saving_run(Saving::Preparing, disk, disk.settings, text, outcomes);
}

/// Saving that goes well is over after four steps, of which the third writes and the
/// fourth replaces; the first failure ends it without the settings file being touched.
pub proof fn law_saving_goes_through(
    disk: SettingsDisk,
    text: Seq<char>,
    outcomes: Seq<(bool, Option<Seq<char>>)>,
)
    requires
        outcomes.len() == 4,
    ensures
        (forall|i: int| 0 <= i < 4 ==> (#[trigger] outcomes[i]).0) ==> saving_run(
            Saving::Preparing,
            disk,
            text,
            outcomes,
        ) == (Saving::Saved, SettingsDisk { settings: Some(text), beside: None }),
        (exists|i: int| 0 <= i < 4 && !(#[trigger] outcomes[i]).0) ==> saving_run(
            Saving::Preparing,
            disk,
            text,
            outcomes,
        ).0 is Failed,
        saving_next(Saving::Failed, true) is Failed,
        saving_next(Saving::Saved, false) is Saved,
{
    let o1 = outcomes.skip(1);
    let o2 = o1.skip(1);
    let o3 = o2.skip(1);
    assert(o1[0] == outcomes[1] && o2[0] == outcomes[2] && o3[0] == outcomes[3]);
    assert(o3.skip(1).len() == 0);
    reveal_with_fuel(saving_run, 5);
}

} // verus!
