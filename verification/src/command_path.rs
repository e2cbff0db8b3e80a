//! Resolve whether a program name is available on `PATH`.
//!
//! The caller says which files exist; which files matter, and what follows from
//! them, is decided here, without spawning anything.

use vstd::prelude::*;

use crate::text::{chars_of, split_text, texts, trim_text};

verus! {

/// Whether a character separates the parts of a path.
pub open spec fn is_separator(c: char, windows: bool) -> bool {
    c == '/' || (windows && c == '\\')
}

/// Whether a name holds a separator.
pub open spec fn holds_separator(name: Seq<char>, windows: bool) -> bool {
    exists|i: int| 0 <= i < name.len() && is_separator(#[trigger] name[i], windows)
}

/// The name without the drive letter and colon that may begin it on Windows.
pub open spec fn without_drive(name: Seq<char>, windows: bool) -> Seq<char> {
    if windows && name.len() >= 2 && name[1] == ':' && ('a' <= name[0] <= 'z' || 'A' <= name[0]
        <= 'Z') {
        name.skip(2)
    } else {
        name
    }
}

/// Whether a name is a path rather than a program to look up: it holds a
/// separator, or is the current or the parent directory.
pub open spec fn is_explicit(name: Seq<char>, windows: bool) -> bool {
    ||| holds_separator(name, windows)
    ||| without_drive(name, windows) == "."@
    ||| without_drive(name, windows) == ".."@
}

/// Whether a name holds a path separator of the platform.
pub fn path_has_separator(name: &str, windows: bool) -> (r: bool)
    ensures
        r == holds_separator(name@, windows),
{
    let v = chars_of(name);
    let mut i: usize = 0;
    while i < v.len()
        invariant
            i <= v@.len(),
            v@ == name@,
            forall|k: int| 0 <= k < i ==> !is_separator(#[trigger] v@[k], windows),
        decreases v@.len() - i,
    {
        if v[i] == '/' || (windows && v[i] == '\\') {
            assert(is_separator(name@[i as int], windows));
            return true;
        }
        i = i + 1;
    }
    false
}

/// Whether a name is a path of its own, to be checked as it stands.
pub fn path_is_explicit(name: &str, windows: bool) -> (r: bool)
    ensures
        r == is_explicit(name@, windows),
{
    if path_has_separator(name, windows) {
        return true;
    }
    let v = chars_of(name);
    let start: usize = if windows && v.len() >= 2 && v[1] == ':' && (('a' <= v[0] && v[0] <= 'z')
        || ('A' <= v[0] && v[0] <= 'Z')) {
        2
    } else {
        0
    };
    let rest = crate::text::text_of(&v, start, v.len());
    assert(rest@ =~= without_drive(name@, windows));
    str::eq(rest.as_str(), ".") || str::eq(rest.as_str(), "..")
}

/// A directory of the search path, and whether the program can be run from it.
pub struct PathDir {
    pub dir: String,
    pub runnable: bool,
}

/// Whether some directory of the search path has the program. Empty directories
/// are passed over.
pub open spec fn on_search_path(dirs: Seq<PathDir>) -> bool {
    exists|i: int| 0 <= i < dirs.len() && (#[trigger] dirs[i]).dir@.len() > 0 && dirs[i].runnable
}

/// Whether a command can be run: an empty name cannot; a path can if it is
/// there; any other name can if some directory of the search path has it.
/// Without a search path nothing is found.
pub open spec fn command_found(
    name: Seq<char>,
    windows: bool,
    runnable_as_path: bool,
    search: Option<Seq<PathDir>>,
) -> bool {
    if name.len() == 0 {
        false
    } else if is_explicit(name, windows) {
        runnable_as_path
    } else {
        match search {
            None => false,
            Some(dirs) => on_search_path(dirs),
        }
    }
}

/// True if `name` is a path that exists, or resolves to a file on the search
/// path.
pub fn command_exists(
    name: &str,
    windows: bool,
    runnable_as_path: bool,
    search: Option<&Vec<PathDir>>,
) -> (r: bool)
    ensures
        r == command_found(
            name@,
            windows,
            runnable_as_path,
            match search {
                Some(dirs) => Some(dirs@),
                None => None,
            },
        ),
{
    if name.is_empty() {
        return false;
    }
    if path_is_explicit(name, windows) {
        return runnable_as_path;
    }
    match search {
        None => false,
        Some(dirs) => {
            let mut i: usize = 0;
            while i < dirs.len()
                invariant
                    i <= dirs@.len(),
                    name@.len() > 0,
                    !is_explicit(name@, windows),
                    search == Some(dirs),
                    forall|k: int|
                        0 <= k < i ==> !((#[trigger] dirs@[k]).dir@.len() > 0 && dirs@[k].runnable),
                decreases dirs@.len() - i,
            {
                if !dirs[i].dir.as_str().is_empty() && dirs[i].runnable {
                    proof {
                        let ds = dirs@;
                        assert(ds[i as int].dir@.len() > 0 && ds[i as int].runnable);
                    }
                    return true;
                }
                i = i + 1;
            }
            false
        },
    }
}

// ---------------------------------------------------------------------------
// Executable extensions on Windows

/// Whether a file name has an extension: a dot that is not its first character.
pub open spec fn has_extension(file_name: Seq<char>) -> bool {
    file_name != ".."@ && exists|i: int| 0 < i < file_name.len() && #[trigger] file_name[i] == '.'
}

/// One entry of the extension list, trimmed and with its dot.
pub open spec fn extension_text(entry: Seq<char>) -> Seq<char> {
    let t = crate::text::trimmed(entry);
    if t.len() > 0 && t[0] == '.' {
        t
    } else {
        seq!['.'] + t
    }
}

/// The extensions of a list of entries; empty entries count for nothing.
pub open spec fn extensions_of(entries: Seq<Seq<char>>) -> Seq<Seq<char>>
    decreases entries.len(),
{
    if entries.len() == 0 {
        Seq::empty()
    } else if entries.last().len() == 0 {
        extensions_of(entries.drop_last())
    } else {
        extensions_of(entries.drop_last()).push(extension_text(entries.last()))
    }
}

/// The list that holds where the environment gives none.
pub open spec fn extension_list(raw: Option<Seq<char>>) -> Seq<char> {
    match raw {
        Some(s) => s,
        None => ".COM;.EXE;.BAT;.CMD"@,
    }
}

/// The executable extensions, in the order in which they are tried.
pub fn pathext_list(raw: Option<&str>) -> (r: Vec<String>)
    ensures
        texts(r@) == extensions_of(
            crate::text::split_on(extension_list(crate::text::str_opt(raw)), ';'),
        ),
{
    let list: &str = match raw {
        Some(s) => s,
        None => ".COM;.EXE;.BAT;.CMD",
    };
    let entries = split_text(list, ';');
    let mut r: Vec<String> = Vec::new();
    let mut i: usize = 0;
    while i < entries.len()
        invariant
            i <= entries@.len(),
            texts(r@) == extensions_of(texts(entries@).take(i as int)),
        decreases entries@.len() - i,
    {
        let ghost before = texts(r@);
        proof {
            let t = texts(entries@);
            assert(t.take(i + 1).drop_last() =~= t.take(i as int));
            assert(t.take(i + 1).last() == entries@[i as int]@);
        }
        if !entries[i].as_str().is_empty() {
            let t = trim_text(entries[i].as_str());
            let v = chars_of(t.as_str());
            if v.len() > 0 && v[0] == '.' {
                r.push(t);
            } else {
                let mut e = String::new();
                e.push('.');
                e.push_str(t.as_str());
                assert(e@ =~= extension_text(entries@[i as int]@));
                r.push(e);
            }
            assert(texts(r@) =~= before.push(extension_text(entries@[i as int]@)));
        }
        i = i + 1;
    }
    assert(texts(entries@).take(i as int) =~= texts(entries@));
    r
}

/// The other names under which a program may lie: a name without an extension
/// with each of the extensions behind it.
pub fn executable_names(file_name: &str, extensions: &Vec<String>) -> (r: Vec<String>)
    ensures
        has_extension(file_name@) ==> r@.len() == 0,
        !has_extension(file_name@) ==> texts(r@) == texts(extensions@).map_values(
            |e: Seq<char>| file_name@ + e,
        ),
{
    let v = chars_of(file_name);
    let mut r: Vec<String> = Vec::new();
    if !str::eq(file_name, "..") {
        let mut i: usize = 1;
        while i < v.len()
            invariant
                1 <= i,
                v@ == file_name@,
                file_name@ != ".."@,
                r@.len() == 0,
                forall|k: int| 0 < k < i && k < v@.len() ==> #[trigger] v@[k] != '.',
            decreases v@.len() - i,
        {
            if v[i] == '.' {
                assert(file_name@[i as int] == '.');
                return r;
            }
            i = i + 1;
        }
    }
    assert(!has_extension(file_name@));
    let mut i: usize = 0;
    while i < extensions.len()
        invariant
            i <= extensions@.len(),
            r@.len() == i,
            forall|k: int| 0 <= k < i ==> (#[trigger] r@[k])@ == file_name@ + extensions@[k]@,
        decreases extensions@.len() - i,
    {
        let mut name = file_name.to_owned();
        name.push_str(extensions[i].as_str());
        r.push(name);
        i = i + 1;
    }
    assert(texts(r@) =~= texts(extensions@).map_values(|e: Seq<char>| file_name@ + e));
    r
}

/// Whether a path can be run: the file itself is there or, on Windows, one of
/// the names with an executable extension is.
pub fn is_runnable(file_exists: bool, windows: bool, other_names_exist: &Vec<bool>) -> (r: bool)
    ensures
        r == (file_exists || (windows && exists|i: int|
            0 <= i < other_names_exist@.len() && #[trigger] other_names_exist@[i])),
{
    if file_exists {
        return true;
    }
    if !windows {
        return false;
    }
    let mut i: usize = 0;
    while i < other_names_exist.len()
        invariant
            i <= other_names_exist@.len(),
            windows,
            forall|k: int| 0 <= k < i ==> !#[trigger] other_names_exist@[k],
        decreases other_names_exist@.len() - i,
    {
        if other_names_exist[i] {
            return true;
        }
        i = i + 1;
    }
    false
}

/// Every extension begins with a dot.
pub proof fn law_extensions_have_dots(entries: Seq<Seq<char>>)
    ensures
        extensions_of(entries).len() <= entries.len(),
        forall|i: int|
            0 <= i < extensions_of(entries).len() ==> (#[trigger] extensions_of(entries)[i]).len()
                > 0 && extensions_of(entries)[i][0] == '.',
    decreases entries.len(),
{
    if entries.len() > 0 {
        law_extensions_have_dots(entries.drop_last());
    }
}

/// Outside Windows a backslash or a drive letter has no meaning: a name is a
/// path exactly if it holds a slash or is `.` or `..`.
pub proof fn law_explicit_outside_windows(name: Seq<char>)
    ensures
        is_explicit(name, false) <==> name.contains('/') || name == "."@ || name == ".."@,
{
    if holds_separator(name, false) {
        let i = choose|i: int| 0 <= i < name.len() && is_separator(#[trigger] name[i], false);
        assert(name[i] == '/');
    }
    if name.contains('/') {
        let i = choose|i: int| 0 <= i < name.len() && name[i] == '/';
        assert(is_separator(name[i], false));
    }
}

/// A command that is named by a path is there where the path is; any other is there where
/// some directory of the search path that is not empty has it. Nothing is found under an
/// empty name or without a search path.
pub proof fn law_command_is_looked_up(
    name: Seq<char>,
    windows: bool,
    runnable_as_path: bool,
    dirs: Seq<PathDir>,
)
    ensures
        !command_found(Seq::empty(), windows, runnable_as_path, Some(dirs)),
        name.len() > 0 && is_explicit(name, windows) ==> command_found(
            name,
            windows,
            runnable_as_path,
            Some(dirs),
        ) == runnable_as_path && command_found(name, windows, runnable_as_path, None)
            == runnable_as_path,
        name.len() > 0 && !is_explicit(name, windows) ==> (command_found(
            name,
            windows,
            runnable_as_path,
            Some(dirs),
        ) <==> exists|i: int|
            0 <= i < dirs.len() && (#[trigger] dirs[i]).runnable && dirs[i].dir@.len() > 0),
        !is_explicit(name, windows) ==> !command_found(name, windows, runnable_as_path, None),
{
}

/// On Windows a name is a path where it holds a slash or a backslash, or is `.` or `..`
/// with or without a drive in front.
pub proof fn law_explicit_on_windows(name: Seq<char>, drive: char)
    ensures
        name.contains('/') || name.contains('\\') ==> is_explicit(name, true),
        is_explicit("."@, true) && is_explicit(".."@, true),
        'a' <= drive <= 'z' || 'A' <= drive <= 'Z' ==> is_explicit(seq![drive, ':', '.'], true)
            && is_explicit(seq![drive, ':', '.', '.'], true),
        is_explicit(name, true) && !name.contains('/') && !name.contains('\\') ==> name.len() > 0
            && name.last() == '.' && name.len() <= 4,
{
    reveal_strlit(".");
    reveal_strlit("..");
    if name.contains('/') {
        let i = choose|i: int| 0 <= i < name.len() && name[i] == '/';
        assert(is_separator(name[i], true));
    }
    if name.contains('\\') {
        let i = choose|i: int| 0 <= i < name.len() && name[i] == '\\';
        assert(is_separator(name[i], true));
    }
    let one = seq![drive, ':', '.'];
    let two = seq![drive, ':', '.', '.'];
    assert(one.skip(2) =~= "."@);
    assert(two.skip(2) =~= ".."@);
    assert("."@.len() == 1 && ".."@.len() == 2);
    assert(without_drive("."@, true) == "."@);
    assert(without_drive(".."@, true) == ".."@);
    if is_explicit(name, true) && !name.contains('/') && !name.contains('\\') {
        if holds_separator(name, true) {
            let i = choose|i: int| 0 <= i < name.len() && is_separator(#[trigger] name[i], true);
            assert(name[i] == '/' || name[i] == '\\');
        }
        let rest = without_drive(name, true);
        assert(rest.last() == name.last());
    }
}

/// The extensions are those of the entries that are not empty, in their order, without
/// the space around them and with a dot in front where one is missing.
pub proof fn law_extensions_follow_the_list(entries: Seq<Seq<char>>, e: Seq<char>)
    ensures
        extensions_of(entries) == entries.filter(|x: Seq<char>| x.len() > 0).map_values(
            |x: Seq<char>| extension_text(x),
        ),
        crate::text::trimmed(e).len() > 0 && crate::text::trimmed(e)[0] == '.' ==> extension_text(e)
            == crate::text::trimmed(e),
        !(crate::text::trimmed(e).len() > 0 && crate::text::trimmed(e)[0] == '.')
            ==> extension_text(e) == "."@ + crate::text::trimmed(e),
        extension_list(None) == ".COM;.EXE;.BAT;.CMD"@,
        extension_list(Some(e)) == e,
    decreases entries.len(),
{
    reveal_strlit(".");
    assert("."@ =~= seq!['.']);
    reveal(Seq::filter);
    if entries.len() > 0 {
        law_extensions_follow_the_list(entries.drop_last(), e);
        let kept = entries.drop_last().filter(|x: Seq<char>| x.len() > 0);
        if entries.last().len() > 0 {
            assert(kept.push(entries.last()).map_values(|x: Seq<char>| extension_text(x))
                =~= kept.map_values(|x: Seq<char>| extension_text(x)).push(
                extension_text(entries.last()),
            ));
        }
    } else {
        assert(extensions_of(entries) =~= entries.filter(|x: Seq<char>| x.len() > 0).map_values(
            |x: Seq<char>| extension_text(x),
        ));
    }
}

/// A name has an extension where a dot stands behind its first character.
pub proof fn law_extension_is_behind_a_dot(stem: Seq<char>, ending: Seq<char>)
    requires
        stem.len() > 0,
        stem != "."@ || ending.len() > 0,
    ensures
        has_extension(stem + seq!['.'] + ending),
        !stem.contains('.') ==> !has_extension(stem),
        !has_extension(seq!['.'] + stem) || stem.contains('.'),
{
    reveal_strlit(".");
    reveal_strlit("..");
    let s = stem + seq!['.'] + ending;
    assert(s[stem.len() as int] == '.');
    if s == ".."@ {
        assert(".."@.len() == 2);
        assert(stem[0] == s[0]);
        assert(stem =~= "."@);
    }
    let t = seq!['.'] + stem;
    if has_extension(t) {
        let i = choose|i: int| 0 < i < t.len() && #[trigger] t[i] == '.';
        assert(stem[i - 1] == '.');
    }
    if has_extension(stem) {
        let i = choose|i: int| 0 < i < stem.len() && #[trigger] stem[i] == '.';
        assert(stem.contains('.'));
    }
}

} // verus!
