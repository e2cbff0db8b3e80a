//! Taking options out of a list of arguments.

use vstd::prelude::*;

use crate::model::SessionTransport;
use crate::session_log::SessionLoggingOverride;
use crate::text::{chars_of, split_on, split_text, text_opt, texts, trim_text, trimmed};

verus! {

/// Where `flag` first stands among the arguments; their number, if nowhere.
pub open spec fn place_of(args: Seq<Seq<char>>, flag: Seq<char>) -> int
    decreases args.len(),
{
    if args.len() == 0 || args[0] == flag {
        0
    } else {
        1 + place_of(args.skip(1), flag)
    }
}

/// The value after the first `flag`, and the arguments without the two. A flag
/// with nothing after it has no value and stays.
pub open spec fn taken(args: Seq<Seq<char>>, flag: Seq<char>) -> (
    Option<Seq<char>>,
    Seq<Seq<char>>,
) {
    let i = place_of(args, flag);
    if i + 1 < args.len() {
        (Some(args[i + 1]), args.take(i) + args.skip(i + 2))
    } else {
        (None, args)
    }
}

/// Whether `flag` stands among the arguments, and the arguments without its first
/// occurrence.
pub open spec fn flagged(args: Seq<Seq<char>>, flag: Seq<char>) -> (bool, Seq<Seq<char>>) {
    let i = place_of(args, flag);
    if i < args.len() {
        (true, args.take(i) + args.skip(i + 1))
    } else {
        (false, args)
    }
}

/// The values after every `flag`, in order, and the arguments without them.
pub open spec fn all_taken(args: Seq<Seq<char>>, flag: Seq<char>) -> (
    Seq<Seq<char>>,
    Seq<Seq<char>>,
)
    decreases args.len(),
{
    let i = place_of(args, flag);
    if 0 <= i && i + 1 < args.len() {
        let (more, rest) = all_taken(args.take(i) + args.skip(i + 2), flag);
        (seq![args[i + 1]] + more, rest)
    } else {
        (Seq::empty(), args)
    }
}

proof fn lemma_place(args: Seq<Seq<char>>, flag: Seq<char>, i: int)
    requires
        0 <= i <= args.len(),
        forall|k: int| 0 <= k < i ==> args[k] != flag,
        i < args.len() ==> args[i] == flag,
    ensures
        place_of(args, flag) == i,
    decreases args.len(),
{
    if i > 0 {
        let rest = args.skip(1);
        assert forall|k: int| 0 <= k < i - 1 implies rest[k] != flag by {
            assert(args[k + 1] != flag);
        }
        lemma_place(rest, flag, i - 1);
    }
}

fn find_arg(args: &Vec<String>, flag: &str) -> (r: usize)
    ensures
        r == place_of(texts(args@), flag@),
        r <= args@.len(),
{
    let mut i: usize = 0;
    while i < args.len()
        invariant
            i <= args@.len(),
            forall|k: int| 0 <= k < i ==> #[trigger] texts(args@)[k] != flag@,
        decreases args@.len() - i,
    {
        if str::eq(args[i].as_str(), flag) {
            proof {
                lemma_place(texts(args@), flag@, i as int);
            }
            return i;
        }
        i = i + 1;
    }
    proof {
        lemma_place(texts(args@), flag@, i as int);
    }
    i
}

/// Take an option and its value out of the arguments.
pub fn take_opt(args: &mut Vec<String>, flag: &str) -> (r: Option<String>)
    ensures
        (text_opt(r), texts(final(args)@)) == taken(texts(old(args)@), flag@),
{
    let i: usize = find_arg(args, flag);
    if i < args.len() && args.len() - i > 1 {
        let ghost before = args@;
        let value = args.remove(i + 1);
        let _ = args.remove(i);
        proof {
            assert(args@ =~= before.take(i as int) + before.skip(i + 2));
            assert(texts(args@) =~= texts(before).take(i as int) + texts(before).skip(i + 2));
        }
        Some(value)
    } else {
        None
    }
}

/// Take a flag out of the arguments; whether it was there.
pub fn take_flag(args: &mut Vec<String>, flag: &str) -> (r: bool)
    ensures
        (r, texts(final(args)@)) == flagged(texts(old(args)@), flag@),
{
    let i: usize = find_arg(args, flag);
    if i < args.len() {
        let ghost before = args@;
        let _ = args.remove(i);
        proof {
            assert(args@ =~= before.take(i as int) + before.skip(i + 1));
            assert(texts(args@) =~= texts(before).take(i as int) + texts(before).skip(i + 1));
        }
        true
    } else {
        false
    }
}

/// Take every occurrence of an option out of the arguments.
pub fn take_all(args: &mut Vec<String>, flag: &str) -> (r: Vec<String>)
    ensures
        (texts(r@), texts(final(args)@)) == all_taken(texts(old(args)@), flag@),
{
    let mut r: Vec<String> = Vec::new();
    let ghost start = texts(args@);
    proof {
        assert(texts(r@) =~= Seq::empty());
        assert(texts(r@) + all_taken(start, flag@).0 =~= all_taken(start, flag@).0);
    }
    loop
        invariant_except_break
            all_taken(start, flag@) == (
                texts(r@) + all_taken(texts(args@), flag@).0,
                all_taken(texts(args@), flag@).1,
            ),
        ensures
            all_taken(start, flag@) == (texts(r@), texts(args@)),
        decreases args@.len(),
    {
        let ghost before = texts(args@);
        let ghost taken_so_far = texts(r@);
        match take_opt(args, flag) {
            Some(v) => {
                let ghost value = v@;
                r.push(v);
                proof {
                    assert(texts(r@) =~= taken_so_far.push(value));
                    let rest = all_taken(texts(args@), flag@).0;
                    assert(taken_so_far + (seq![value] + rest) =~= taken_so_far.push(value) + rest);
                    lemma_place_bounds(before, flag@);
                    assert(texts(args@).len() == args@.len());
                    assert(before.len() == args@.len() + 2);
                }
            },
            None => {
                proof {
                    assert(taken_so_far + Seq::<Seq<char>>::empty() =~= taken_so_far);
                    lemma_place_bounds(before, flag@);
                }
                break;
            },
        }
    }
    r
}

proof fn lemma_place_bounds(args: Seq<Seq<char>>, flag: Seq<char>)
    ensures
        0 <= place_of(args, flag) <= args.len(),
    decreases args.len(),
{
    if args.len() > 0 && args[0] != flag {
        lemma_place_bounds(args.skip(1), flag);
    }
}

/// A field that may be left out: without the space around it, and none where
/// nothing is left.
pub open spec fn field(s: Seq<char>) -> Option<Seq<char>> {
    if trimmed(s).len() > 0 {
        Some(trimmed(s))
    } else {
        None
    }
}

/// Read a field that may be left out.
pub fn optional_field(s: &str) -> (r: Option<String>)
    ensures
        text_opt(r) == field(s@),
{
    let t = trim_text(s);
    let v = chars_of(t.as_str());
    if v.len() > 0 {
        Some(t)
    } else {
        None
    }
}

/// The parts of a list that are left once the space around them is taken off and
/// the empty ones are dropped.
pub open spec fn filled(parts: Seq<Seq<char>>) -> Seq<Seq<char>>
    decreases parts.len(),
{
    if parts.len() == 0 {
        Seq::empty()
    } else if trimmed(parts.last()).len() > 0 {
        filled(parts.drop_last()).push(trimmed(parts.last()))
    } else {
        filled(parts.drop_last())
    }
}

/// The tags in a text, which commas separate.
pub open spec fn tags_of(s: Seq<char>) -> Seq<Seq<char>> {
    filled(split_on(s, ','))
}

/// Read a list of tags.
pub fn parse_tags(s: &str) -> (r: Vec<String>)
    ensures
        texts(r@) == tags_of(s@),
{
    let parts = split_text(s, ',');
    let mut r: Vec<String> = Vec::new();
    let mut i: usize = 0;
    proof {
        assert(texts(r@) =~= filled(texts(parts@).take(0)));
    }
    while i < parts.len()
        invariant
            i <= parts@.len(),
            texts(r@) == filled(texts(parts@).take(i as int)),
        decreases parts@.len() - i,
    {
        let ghost before = texts(r@);
        let t = trim_text(parts[i].as_str());
        let v = chars_of(t.as_str());
        proof {
            let next = texts(parts@).take(i + 1);
            assert(next.drop_last() =~= texts(parts@).take(i as int));
            assert(next.last() == parts@[i as int]@);
        }
        if v.len() > 0 {
            let ghost value = t@;
            r.push(t);
            assert(texts(r@) =~= before.push(value));
        }
        i = i + 1;
    }
    assert(texts(parts@).take(i as int) =~= texts(parts@));
    r
}

/// No tag is empty or has space around it.
pub proof fn law_tags_are_trimmed(s: Seq<char>, i: int)
    requires
        0 <= i < tags_of(s).len(),
    ensures
        tags_of(s)[i].len() > 0,
        trimmed(tags_of(s)[i]) == tags_of(s)[i],
{
    lemma_filled_trimmed(split_on(s, ','), i);
}

proof fn lemma_filled_trimmed(parts: Seq<Seq<char>>, i: int)
    requires
        0 <= i < filled(parts).len(),
    ensures
        filled(parts)[i].len() > 0,
        trimmed(filled(parts)[i]) == filled(parts)[i],
    decreases parts.len(),
{
    if parts.len() > 0 {
        let kept = filled(parts.drop_last());
        if i < kept.len() {
            lemma_filled_trimmed(parts.drop_last(), i);
        } else {
            crate::text::lemma_trimmed_ends(parts.last());
            crate::text::lemma_trimmed_noop(trimmed(parts.last()));
        }
    }
}

/// The transport a word stands for.
pub open spec fn transport_of(s: Seq<char>) -> Option<SessionTransport> {
    if s == "ssh"@ {
        Some(SessionTransport::Ssh)
    } else if s == "mosh"@ {
        Some(SessionTransport::Mosh)
    } else {
        None
    }
}

/// Read a transport.
pub fn parse_transport(s: &str) -> (r: Option<SessionTransport>)
    ensures
        r == transport_of(s@),
{
    if str::eq(s, "ssh") {
        Some(SessionTransport::Ssh)
    } else if str::eq(s, "mosh") {
        Some(SessionTransport::Mosh)
    } else {
        None
    }
}

/// The logging setting a word stands for.
pub open spec fn session_logging_of(s: Seq<char>) -> Option<SessionLoggingOverride> {
    if s == "inherit"@ {
        Some(SessionLoggingOverride::Inherit)
    } else if s == "on"@ {
        Some(SessionLoggingOverride::On)
    } else if s == "off"@ {
        Some(SessionLoggingOverride::Off)
    } else {
        None
    }
}

/// Read a logging setting.
pub fn parse_session_logging(s: &str) -> (r: Option<SessionLoggingOverride>)
    ensures
        r == session_logging_of(s@),
{
    if str::eq(s, "inherit") {
        Some(SessionLoggingOverride::Inherit)
    } else if str::eq(s, "on") {
        Some(SessionLoggingOverride::On)
    } else if str::eq(s, "off") {
        Some(SessionLoggingOverride::Off)
    } else {
        None
    }
}

/// A logging setting is read back from the word that shows it.
pub proof fn law_session_logging_word(setting: SessionLoggingOverride)
    ensures
        session_logging_of(setting.label_text()) == Some(setting),
{
    reveal_strlit("inherit");
    reveal_strlit("on");
    reveal_strlit("off");
    assert("inherit"@.len() == 7 && "on"@.len() == 2 && "off"@.len() == 3);
}

// ---------------------------------------------------------------------------
// Arguments as they are meant

/// An argument as it is meant: a flag, or an option with its value.
pub ghost enum Arg {
    Flag(Seq<char>),
    Opt(Seq<char>, Seq<char>),
}

/// The word that an argument begins with.
pub open spec fn word(arg: Arg) -> Seq<char> {
    match arg {
        Arg::Flag(w) => w,
        Arg::Opt(w, v) => w,
    }
}

/// The words of the arguments, one after the other.
pub open spec fn spelled(items: Seq<Arg>) -> Seq<Seq<char>>
    decreases items.len(),
{
    if items.len() == 0 {
        Seq::empty()
    } else {
        (match items[0] {
            Arg::Flag(w) => seq![w],
            Arg::Opt(w, v) => seq![w, v],
        }) + spelled(items.skip(1))
    }
}

/// The value of the first option of a name.
pub open spec fn asked(items: Seq<Arg>, name: Seq<char>) -> Option<Seq<char>>
    decreases items.len(),
{
    if items.len() == 0 {
        None
    } else if word(items[0]) == name && items[0] is Opt {
        Some(items[0]->Opt_1)
    } else {
        asked(items.skip(1), name)
    }
}

/// The values of all options of a name, in order.
pub open spec fn asked_all(items: Seq<Arg>, name: Seq<char>) -> Seq<Seq<char>>
    decreases items.len(),
{
    if items.len() == 0 {
        Seq::empty()
    } else if word(items[0]) == name && items[0] is Opt {
        seq![items[0]->Opt_1] + asked_all(items.skip(1), name)
    } else {
        asked_all(items.skip(1), name)
    }
}

/// Whether a flag is given.
pub open spec fn told(items: Seq<Arg>, name: Seq<char>) -> bool {
    exists|i: int| 0 <= i < items.len() && #[trigger] items[i] == Arg::Flag(name)
}

/// Whether the arguments are spelled so that each is what it is meant to be: flags and
/// options are known as such, and no value is a word that is one of them.
pub open spec fn well_spelled(
    items: Seq<Arg>,
    options: Set<Seq<char>>,
    flags: Set<Seq<char>>,
) -> bool {
    forall|i: int|
        #![trigger items[i]]
        0 <= i < items.len() ==> match items[i] {
            Arg::Flag(w) => flags.contains(w) && !options.contains(w),
            Arg::Opt(w, v) => options.contains(w) && !flags.contains(w) && !options.contains(v)
                && !flags.contains(v),
        }
}

/// The arguments without the first one that begins with a word.
pub open spec fn without_first(items: Seq<Arg>, name: Seq<char>) -> Seq<Arg>
    decreases items.len(),
{
    if items.len() == 0 {
        items
    } else if word(items[0]) == name {
        items.skip(1)
    } else {
        seq![items[0]] + without_first(items.skip(1), name)
    }
}

/// The arguments without those that begin with a word.
pub open spec fn without_all(items: Seq<Arg>, name: Seq<char>) -> Seq<Arg>
    decreases items.len(),
{
    if items.len() == 0 {
        items
    } else if word(items[0]) == name {
        without_all(items.skip(1), name)
    } else {
        seq![items[0]] + without_all(items.skip(1), name)
    }
}

proof fn lemma_taken_skip(args: Seq<Seq<char>>, flag: Seq<char>)
    requires
        args.len() > 0,
        args[0] != flag,
    ensures
        taken(args, flag).0 == taken(args.skip(1), flag).0,
        taken(args, flag).1 == seq![args[0]] + taken(args.skip(1), flag).1,
        flagged(args, flag).0 == flagged(args.skip(1), flag).0,
        flagged(args, flag).1 == seq![args[0]] + flagged(args.skip(1), flag).1,
{
    let rest = args.skip(1);
    lemma_place_bounds(rest, flag);
    let i = place_of(rest, flag);
    assert(place_of(args, flag) == i + 1);
    assert(args =~= seq![args[0]] + rest);
    if i + 1 < rest.len() {
        assert(args[i + 2] == rest[i + 1]);
        assert(args.take(i + 1) + args.skip(i + 3) =~= seq![args[0]] + (rest.take(i) + rest.skip(
            i + 2,
        )));
    }
    if i < rest.len() {
        assert(args.take(i + 1) + args.skip(i + 2) =~= seq![args[0]] + (rest.take(i) + rest.skip(
            i + 1,
        )));
    }
}

proof fn lemma_all_taken_skip(args: Seq<Seq<char>>, flag: Seq<char>)
    requires
        args.len() > 0,
        args[0] != flag,
    ensures
        all_taken(args, flag).0 == all_taken(args.skip(1), flag).0,
        all_taken(args, flag).1 == seq![args[0]] + all_taken(args.skip(1), flag).1,
    decreases args.len(),
{
    let rest = args.skip(1);
    lemma_place_bounds(rest, flag);
    lemma_taken_skip(args, flag);
    let i = place_of(rest, flag);
    assert(place_of(args, flag) == i + 1);
    if i + 1 < rest.len() {
        let next = taken(args, flag).1;
        assert(next.skip(1) =~= taken(rest, flag).1);
        lemma_all_taken_skip(next, flag);
    }
}

/// An option is read as the value of the first one of its name, and nothing else goes.
pub proof fn lemma_option_is_taken(
    items: Seq<Arg>,
    options: Set<Seq<char>>,
    flags: Set<Seq<char>>,
    name: Seq<char>,
)
    requires
        well_spelled(items, options, flags),
        options.contains(name),
    ensures
        taken(spelled(items), name) == (asked(items, name), spelled(without_first(items, name))),
    decreases items.len(),
{
    let args = spelled(items);
    if items.len() > 0 {
        let rest = items.skip(1);
        assert forall|i: int| 0 <= i < rest.len() implies #[trigger] rest[i] == items[i + 1] by {}
        lemma_option_is_taken(rest, options, flags, name);
        assert(items[0] == items[0]);
        match items[0] {
            Arg::Flag(w) => {
                assert(args.skip(1) =~= spelled(rest));
                lemma_taken_skip(args, name);
                let left = seq![items[0]] + without_first(rest, name);
                assert(left.skip(1) =~= without_first(rest, name));
            },
            Arg::Opt(w, v) => {
                assert(args[0] == w && args[1] == v);
                if w == name {
                    assert(place_of(args, name) == 0);
                    assert(args.take(0) + args.skip(2) =~= spelled(rest));
                } else {
                    let after = args.skip(1);
                    assert(after[0] == v);
                    assert(after.skip(1) =~= spelled(rest));
                    lemma_taken_skip(args, name);
                    lemma_taken_skip(after, name);
                    let left = seq![items[0]] + without_first(rest, name);
                    assert(left.skip(1) =~= without_first(rest, name));
                    assert(seq![w] + (seq![v] + spelled(without_first(rest, name))) =~= seq![w, v]
                        + spelled(without_first(rest, name)));
                }
            },
        }
    }
}

/// A flag is read where it is given, and nothing else goes.
pub proof fn lemma_flag_is_taken(
    items: Seq<Arg>,
    options: Set<Seq<char>>,
    flags: Set<Seq<char>>,
    name: Seq<char>,
)
    requires
        well_spelled(items, options, flags),
        flags.contains(name),
    ensures
        flagged(spelled(items), name) == (told(items, name), spelled(without_first(items, name))),
    decreases items.len(),
{
    let args = spelled(items);
    if items.len() > 0 {
        let rest = items.skip(1);
        assert forall|i: int| 0 <= i < rest.len() implies #[trigger] rest[i] == items[i + 1] by {}
        lemma_flag_is_taken(rest, options, flags, name);
        if told(rest, name) {
            let i = choose|i: int| 0 <= i < rest.len() && #[trigger] rest[i] == Arg::Flag(name);
            assert(items[i + 1] == Arg::Flag(name));
        }
        if told(items, name) && items[0] != Arg::Flag(name) {
            let i = choose|i: int| 0 <= i < items.len() && #[trigger] items[i] == Arg::Flag(name);
            assert(rest[i - 1] == Arg::Flag(name));
        }
        assert(items[0] == items[0]);
        match items[0] {
            Arg::Flag(w) => {
                assert(args.skip(1) =~= spelled(rest));
                if w == name {
                    assert(place_of(args, name) == 0);
                    assert(args.take(0) + args.skip(1) =~= spelled(rest));
                } else {
                    lemma_taken_skip(args, name);
                    let left = seq![items[0]] + without_first(rest, name);
                    assert(left.skip(1) =~= without_first(rest, name));
                }
            },
            Arg::Opt(w, v) => {
                assert(args[0] == w && args[1] == v);
                let after = args.skip(1);
                assert(after[0] == v);
                assert(after.skip(1) =~= spelled(rest));
                lemma_taken_skip(args, name);
                lemma_taken_skip(after, name);
                let left = seq![items[0]] + without_first(rest, name);
                assert(left.skip(1) =~= without_first(rest, name));
                assert(seq![w] + (seq![v] + spelled(without_first(rest, name))) =~= seq![w, v]
                    + spelled(without_first(rest, name)));
            },
        }
    } else {
        assert(!told(items, name));
    }
}

/// An option that may be repeated is read as all values of its name, in order.
pub proof fn lemma_options_are_taken(
    items: Seq<Arg>,
    options: Set<Seq<char>>,
    flags: Set<Seq<char>>,
    name: Seq<char>,
)
    requires
        well_spelled(items, options, flags),
        options.contains(name),
    ensures
        all_taken(spelled(items), name) == (
            asked_all(items, name),
            spelled(without_all(items, name)),
        ),
    decreases items.len(),
{
    let args = spelled(items);
    if items.len() > 0 {
        let rest = items.skip(1);
        assert forall|i: int| 0 <= i < rest.len() implies #[trigger] rest[i] == items[i + 1] by {}
        lemma_options_are_taken(rest, options, flags, name);
        assert(items[0] == items[0]);
        match items[0] {
            Arg::Flag(w) => {
                assert(args.skip(1) =~= spelled(rest));
                lemma_all_taken_skip(args, name);
                let left = seq![items[0]] + without_all(rest, name);
                assert(left.skip(1) =~= without_all(rest, name));
            },
            Arg::Opt(w, v) => {
                assert(args[0] == w && args[1] == v);
                if w == name {
                    assert(place_of(args, name) == 0);
                    assert(args.take(0) + args.skip(2) =~= spelled(rest));
                } else {
                    let after = args.skip(1);
                    assert(after[0] == v);
                    assert(after.skip(1) =~= spelled(rest));
                    lemma_all_taken_skip(args, name);
                    lemma_all_taken_skip(after, name);
                    let left = seq![items[0]] + without_all(rest, name);
                    assert(left.skip(1) =~= without_all(rest, name));
                    assert(seq![w] + (seq![v] + spelled(without_all(rest, name))) =~= seq![w, v]
                        + spelled(without_all(rest, name)));
                }
            },
        }
    }
}

/// What is left once an argument was taken says of every other name what was said before.
pub proof fn lemma_others_are_left(
    items: Seq<Arg>,
    options: Set<Seq<char>>,
    flags: Set<Seq<char>>,
    name: Seq<char>,
)
    requires
        well_spelled(items, options, flags),
    ensures
        well_spelled(without_first(items, name), options, flags),
        forall|g: Seq<char>|
            g != name ==> #[trigger] asked(without_first(items, name), g) == asked(items, g),
        forall|g: Seq<char>|
            g != name ==> #[trigger] asked_all(without_first(items, name), g) == asked_all(
                items,
                g,
            ),
        forall|g: Seq<char>|
            g != name ==> #[trigger] told(without_first(items, name), g) == told(items, g),
    decreases items.len(),
{
    if items.len() > 0 {
        let rest = items.skip(1);
        assert forall|i: int| 0 <= i < rest.len() implies #[trigger] rest[i] == items[i + 1] by {}
        lemma_others_are_left(rest, options, flags, name);
        let left = without_first(items, name);
        if word(items[0]) != name {
            let tail = without_first(rest, name);
            assert(left.skip(1) =~= tail);
            assert forall|i: int| 0 <= i < left.len() implies #[trigger] left[i] == (if i == 0 {
                items[0]
            } else {
                tail[i - 1]
            }) by {}
            assert(items[0] == items[0]);
            assert(well_spelled(left, options, flags));
            assert forall|g: Seq<char>| g != name implies #[trigger] asked(left, g) == asked(
                items,
                g,
            ) by {
                assert(asked(left.skip(1), g) == asked(rest, g));
            }
            assert forall|g: Seq<char>| g != name implies #[trigger] asked_all(left, g)
                == asked_all(items, g) by {
                assert(asked_all(left.skip(1), g) == asked_all(rest, g));
            }
            assert forall|g: Seq<char>| g != name implies #[trigger] told(left, g) == told(
                items,
                g,
            ) by {
                lemma_told_front(items, g);
                lemma_told_front(left, g);
            }
        } else {
            assert forall|g: Seq<char>| g != name implies #[trigger] asked(left, g) == asked(
                items,
                g,
            ) by {
                assert(asked(items, g) == asked(rest, g));
            }
            assert forall|g: Seq<char>| g != name implies #[trigger] asked_all(left, g)
                == asked_all(items, g) by {
                assert(asked_all(items, g) == asked_all(rest, g));
            }
            assert forall|g: Seq<char>| g != name implies #[trigger] told(left, g) == told(
                items,
                g,
            ) by {
                lemma_told_front(items, g);
            }
        }
    }
}

/// The same where every argument of a name was taken.
pub proof fn lemma_others_are_left_by_all(
    items: Seq<Arg>,
    options: Set<Seq<char>>,
    flags: Set<Seq<char>>,
    name: Seq<char>,
)
    requires
        well_spelled(items, options, flags),
    ensures
        well_spelled(without_all(items, name), options, flags),
        forall|g: Seq<char>|
            g != name ==> #[trigger] asked(without_all(items, name), g) == asked(items, g),
        forall|g: Seq<char>|
            g != name ==> #[trigger] told(without_all(items, name), g) == told(items, g),
    decreases items.len(),
{
    if items.len() > 0 {
        let rest = items.skip(1);
        assert forall|i: int| 0 <= i < rest.len() implies #[trigger] rest[i] == items[i + 1] by {}
        lemma_others_are_left_by_all(rest, options, flags, name);
        let left = without_all(items, name);
        let tail = without_all(rest, name);
        if word(items[0]) != name {
            assert(left.skip(1) =~= tail);
            assert forall|i: int| 0 <= i < left.len() implies #[trigger] left[i] == (if i == 0 {
                items[0]
            } else {
                tail[i - 1]
            }) by {}
            assert(items[0] == items[0]);
            assert(well_spelled(left, options, flags));
            assert forall|g: Seq<char>| g != name implies #[trigger] asked(left, g) == asked(
                items,
                g,
            ) by {
                assert(asked(left.skip(1), g) == asked(rest, g));
            }
            assert forall|g: Seq<char>| g != name implies #[trigger] told(left, g) == told(
                items,
                g,
            ) by {
                lemma_told_front(items, g);
                lemma_told_front(left, g);
            }
        } else {
            assert forall|g: Seq<char>| g != name implies #[trigger] asked(left, g) == asked(
                items,
                g,
            ) by {
                assert(asked(items, g) == asked(rest, g));
            }
            assert forall|g: Seq<char>| g != name implies #[trigger] told(left, g) == told(
                items,
                g,
            ) by {
                lemma_told_front(items, g);
            }
        }
    }
}

proof fn lemma_told_front(items: Seq<Arg>, name: Seq<char>)
    requires
        items.len() > 0,
    ensures
        told(items, name) <==> items[0] == Arg::Flag(name) || told(items.skip(1), name),
{
    let rest = items.skip(1);
    if told(rest, name) {
        let i = choose|i: int| 0 <= i < rest.len() && #[trigger] rest[i] == Arg::Flag(name);
        assert(items[i + 1] == Arg::Flag(name));
    }
    if told(items, name) && items[0] != Arg::Flag(name) {
        let i = choose|i: int| 0 <= i < items.len() && #[trigger] items[i] == Arg::Flag(name);
        assert(rest[i - 1] == Arg::Flag(name));
    }
}

/// What tells the words of a command apart: their lengths, first letters and ends.
pub open spec fn mark(w: Seq<char>) -> (nat, char, char) {
    (w.len(), w[2], w.last())
}

/// A field is what is given without the space around it, and is left empty where that is
/// nothing.
pub proof fn law_field_is_trimmed(s: Seq<char>)
    ensures
        field(s) is None <==> forall|i: int|
            0 <= i < s.len() ==> crate::text::is_space(#[trigger] s[i]),
        field(s) is Some ==> field(s)->0 == trimmed(s) && field(s)->0.len() > 0,
{
    crate::text::lemma_trimmed_empty(s);
}

/// The words for a transport and for the logging are known, and no others.
pub proof fn law_words_are_known(s: Seq<char>)
    ensures
        transport_of("ssh"@) == Some(SessionTransport::Ssh),
        transport_of("mosh"@) == Some(SessionTransport::Mosh),
        session_logging_of("inherit"@) == Some(SessionLoggingOverride::Inherit),
        session_logging_of("on"@) == Some(SessionLoggingOverride::On),
        session_logging_of("off"@) == Some(SessionLoggingOverride::Off),
        transport_of(s) is Some ==> s == "ssh"@ || s == "mosh"@,
        session_logging_of(s) is Some ==> s == "inherit"@ || s == "on"@ || s == "off"@,
{
    reveal_strlit("ssh");
    reveal_strlit("mosh");
    reveal_strlit("inherit");
    reveal_strlit("on");
    reveal_strlit("off");
    assert("ssh"@.len() == 3 && "mosh"@.len() == 4);
    assert("inherit"@.len() == 7 && "on"@.len() == 2 && "off"@.len() == 3);
}

} // verus!
