//! The keys that the footer names.

use vstd::prelude::*;

use crate::app::AppMode;

verus! {

/// A key, and what it does.
#[derive(Debug)]
pub struct KeyHint {
    pub key: String,
    pub label: String,
}

/// A panel of the dashboard.
#[derive(Debug, Clone, Copy, PartialEq, Eq, Structural)]
pub enum PanelId {
    Hosts,
    Detail,
    Agent,
    Latency,
    Recent,
    Auth,
    Ping,
    SshLog,
    Broadcast,
}

/// What the footer depends on.
#[derive(Debug)]
pub struct FooterState {
    pub active_tab: usize,
    pub mode: AppMode,
    /// The left pane of the file transfer shows a second server.
    pub sftp_left_is_remote: bool,
    pub sftp_show_hidden: bool,
    pub panel_zoomed: bool,
    pub focused_panel: PanelId,
    /// A command is being sent to several hosts.
    pub broadcast_running: bool,
    /// Errors of such a command are being shown.
    pub broadcast_errors: bool,
}

/// The keys, as texts.
pub open spec fn hints_text(v: Seq<KeyHint>) -> Seq<(Seq<char>, Seq<char>)> {
    v.map_values(|h: KeyHint| (h.key@, h.label@))
}

/// The keys of a tab.
pub open spec fn tab_hints(s: FooterState) -> Seq<(Seq<char>, Seq<char>)> {
    if s.active_tab == 0 {
        seq![
            ("\u{2191}\u{2193}"@, "select"@),
            ("\u{21b5}"@, "connect"@),
            ("/"@, "search"@),
            ("#"@, "tags"@),
            ("a"@, "add"@),
            ("e"@, "edit"@),
            ("d"@, "del"@),
            ("P"@, "push key"@),
            ("+/-"@, "zoom"@),
            ("\u{2423}"@, "fold"@),
            ("G"@, "groups"@),
            ("?"@, "help"@),
            ("q"@, "quit"@),
        ]
    } else if s.active_tab == 1 {
        seq![
            ("\u{2191}\u{2193}"@, "select"@),
            ("\u{21b5}"@, "enter/connect"@),
            ("\u{21c6}"@, "focus"@),
            if s.sftp_left_is_remote {
                ("O"@, "local"@)
            } else {
                ("o"@, "2nd host"@)
            },
            ("\u{2190}"@, "download"@),
            ("\u{2192}"@, "upload"@),
            ("c"@, "run"@),
            ("u"@, "unstage"@),
            ("d"@, "delete"@),
            ("n"@, "new dir"@),
            ("R"@, "rename"@),
            ("M"@, "chmod"@),
            ("r"@, "refresh"@),
            ("s"@, "ssh"@),
            (
                "."@,
                if s.sftp_show_hidden {
                    "hide dotfiles"@
                } else {
                    "show hidden"@
                },
            ),
            ("/"@, "search"@),
            ("Esc"@, "back"@),
            ("?"@, "help"@),
            ("q"@, "quit"@),
        ]
    } else if s.active_tab == 2 {
        seq![
            ("\u{2191}\u{2193}"@, "select"@),
            ("\u{21b5}"@, "start/stop"@),
            ("a"@, "new tunnel"@),
            ("e"@, "edit"@),
            ("d"@, "delete"@),
            ("x"@, "kill"@),
            ("R"@, "reconnect"@),
            ("?"@, "help"@),
            ("q"@, "quit"@),
        ]
    } else if s.active_tab == 3 {
        seq![
            ("\u{2191}\u{2193}\u{2190}\u{2192}"@, "move"@),
            ("[ ]"@, "columns"@),
            ("a"@, "add"@),
            ("g"@, "generate"@),
            ("e"@, "edit"@),
            ("d"@, "delete"@),
            ("p/r"@, "agent +/-"@),
            ("P"@, "push key"@),
            ("?"@, "help"@),
            ("q"@, "quit"@),
        ]
    } else if s.active_tab == 4 {
        seq![
            ("\u{2191}\u{2193}"@, "select"@),
            ("f"@, "filter"@),
            ("r"@, "range"@),
            ("?"@, "help"@),
            ("q"@, "quit"@),
        ]
    } else {
        seq![("q"@, "quit"@)]
    }
}

/// Whether the lines of a panel can be selected rather than scrolled.
pub open spec fn panel_selects(panel: PanelId) -> bool {
    panel == PanelId::Ping || panel == PanelId::Recent
}

/// The keys of a panel that is focused or zoomed, on the tab of the hosts.
pub open spec fn zoom_hints(s: FooterState) -> Seq<(Seq<char>, Seq<char>)> {
    if s.active_tab != 0 {
        Seq::empty()
    } else {
        (if s.panel_zoomed {
            seq![("z"@, "unzoom"@)]
        } else if s.focused_panel != PanelId::Hosts {
            seq![("z"@, "zoom"@)]
        } else {
            Seq::empty()
        }) + (if s.panel_zoomed && s.focused_panel != PanelId::Hosts {
            if panel_selects(s.focused_panel) {
                seq![("\u{2191}\u{2193}"@, "select"@), ("\u{21b5}"@, "connect"@)]
            } else {
                seq![("\u{2191}\u{2193}"@, "scroll"@)]
            }
        } else {
            Seq::empty()
        }) + (if s.panel_zoomed {
            seq![("drag"@, "copy"@)]
        } else {
            Seq::empty()
        })
    }
}

/// Whether a command for several hosts is being put together.
pub open spec fn in_broadcast_wizard(mode: AppMode) -> bool {
    mode == AppMode::BroadcastPickTarget || mode == AppMode::BroadcastCommand || mode
        == AppMode::BroadcastPreview
}

/// The keys of a command for several hosts.
pub open spec fn broadcast_hints(s: FooterState) -> Seq<(Seq<char>, Seq<char>)> {
    (if s.broadcast_running {
        seq![("x"@, "cancel"@)] + (if s.focused_panel == PanelId::Broadcast {
            seq![("z"@, "zoom"@)]
        } else {
            Seq::empty()
        })
    } else if s.broadcast_errors {
        seq![("x"@, "clear errors"@)]
    } else {
        Seq::empty()
    }) + (if in_broadcast_wizard(s.mode) {
        seq![("\u{21b5}"@, "next"@), ("Esc"@, "cancel"@)]
    } else {
        Seq::empty()
    })
}

/// All keys, before the ones that must stay are moved to the end.
pub open spec fn all_hints(s: FooterState, session_hints: Seq<(Seq<char>, Seq<char>)>) -> Seq<
    (Seq<char>, Seq<char>),
> {
    tab_hints(s) + zoom_hints(s) + broadcast_hints(s) + session_hints
}

/// Where a label first stands; the number of keys, if nowhere.
pub open spec fn place_of_label(hints: Seq<(Seq<char>, Seq<char>)>, label: Seq<char>) -> int
    decreases hints.len(),
{
    if hints.len() == 0 || hints[0].1 == label {
        0
    } else {
        1 + place_of_label(hints.skip(1), label)
    }
}

/// The keys without the first of a label, and that one.
pub open spec fn pulled(hints: Seq<(Seq<char>, Seq<char>)>, label: Seq<char>) -> (
    Seq<(Seq<char>, Seq<char>)>,
    Seq<(Seq<char>, Seq<char>)>,
) {
    let i = place_of_label(hints, label);
    if i < hints.len() {
        (hints.remove(i), seq![hints[i]])
    } else {
        (hints, Seq::empty())
    }
}

/// The keys of the footer, and how many at the end must stay when there is no room for
/// all of them: the way back into a session, the help and the way out.
pub open spec fn pinned_last(hints: Seq<(Seq<char>, Seq<char>)>) -> (
    Seq<(Seq<char>, Seq<char>)>,
    nat,
) {
    let (a, resume) = pulled(hints, "resume"@);
    let (b, help) = pulled(a, "help"@);
    let (c, quit) = pulled(b, "quit"@);
    let pinned = resume + help + quit;
    (c + pinned, pinned.len())
}

fn push_hint(v: &mut Vec<KeyHint>, key: &str, label: &str)
    ensures
        hints_text(final(v)@) == hints_text(old(v)@).push((key@, label@)),
{
    let ghost before = hints_text(v@);
    v.push(KeyHint { key: key.to_owned(), label: label.to_owned() });
    assert(hints_text(v@) =~= before.push((key@, label@)));
}

fn list_tab_hints(s: &FooterState) -> (r: Vec<KeyHint>)
    ensures
        hints_text(r@) == tab_hints(*s),
{
    let mut v: Vec<KeyHint> = Vec::new();
    assert(hints_text(v@) =~= Seq::empty());
    if s.active_tab == 0 {
        push_hint(&mut v, "\u{2191}\u{2193}", "select");
        push_hint(&mut v, "\u{21b5}", "connect");
        push_hint(&mut v, "/", "search");
        push_hint(&mut v, "#", "tags");
        push_hint(&mut v, "a", "add");
        push_hint(&mut v, "e", "edit");
        push_hint(&mut v, "d", "del");
        push_hint(&mut v, "P", "push key");
        push_hint(&mut v, "+/-", "zoom");
        push_hint(&mut v, "\u{2423}", "fold");
        push_hint(&mut v, "G", "groups");
        push_hint(&mut v, "?", "help");
        push_hint(&mut v, "q", "quit");
    } else if s.active_tab == 1 {
        push_hint(&mut v, "\u{2191}\u{2193}", "select");
        push_hint(&mut v, "\u{21b5}", "enter/connect");
        push_hint(&mut v, "\u{21c6}", "focus");
        if s.sftp_left_is_remote {
            push_hint(&mut v, "O", "local");
        } else {
            push_hint(&mut v, "o", "2nd host");
        }
        push_hint(&mut v, "\u{2190}", "download");
        push_hint(&mut v, "\u{2192}", "upload");
        push_hint(&mut v, "c", "run");
        push_hint(&mut v, "u", "unstage");
        push_hint(&mut v, "d", "delete");
        push_hint(&mut v, "n", "new dir");
        push_hint(&mut v, "R", "rename");
        push_hint(&mut v, "M", "chmod");
        push_hint(&mut v, "r", "refresh");
        push_hint(&mut v, "s", "ssh");
        if s.sftp_show_hidden {
            push_hint(&mut v, ".", "hide dotfiles");
        } else {
            push_hint(&mut v, ".", "show hidden");
        }
        push_hint(&mut v, "/", "search");
        push_hint(&mut v, "Esc", "back");
        push_hint(&mut v, "?", "help");
        push_hint(&mut v, "q", "quit");
    } else if s.active_tab == 2 {
        push_hint(&mut v, "\u{2191}\u{2193}", "select");
        push_hint(&mut v, "\u{21b5}", "start/stop");
        push_hint(&mut v, "a", "new tunnel");
        push_hint(&mut v, "e", "edit");
        push_hint(&mut v, "d", "delete");
        push_hint(&mut v, "x", "kill");
        push_hint(&mut v, "R", "reconnect");
        push_hint(&mut v, "?", "help");
        push_hint(&mut v, "q", "quit");
    } else if s.active_tab == 3 {
        push_hint(&mut v, "\u{2191}\u{2193}\u{2190}\u{2192}", "move");
        push_hint(&mut v, "[ ]", "columns");
        push_hint(&mut v, "a", "add");
        push_hint(&mut v, "g", "generate");
        push_hint(&mut v, "e", "edit");
        push_hint(&mut v, "d", "delete");
        push_hint(&mut v, "p/r", "agent +/-");
        push_hint(&mut v, "P", "push key");
        push_hint(&mut v, "?", "help");
        push_hint(&mut v, "q", "quit");
    } else if s.active_tab == 4 {
        push_hint(&mut v, "\u{2191}\u{2193}", "select");
        push_hint(&mut v, "f", "filter");
        push_hint(&mut v, "r", "range");
        push_hint(&mut v, "?", "help");
        push_hint(&mut v, "q", "quit");
    } else {
        push_hint(&mut v, "q", "quit");
    }
    assert(hints_text(v@) =~= tab_hints(*s));
    v
}

fn push_zoom_hints(v: &mut Vec<KeyHint>, s: &FooterState)
    ensures
        hints_text(final(v)@) == hints_text(old(v)@) + zoom_hints(*s),
{
    let ghost before = hints_text(v@);
    if s.active_tab == 0 {
        if s.panel_zoomed {
            push_hint(v, "z", "unzoom");
        } else if s.focused_panel != PanelId::Hosts {
            push_hint(v, "z", "zoom");
        }
        if s.panel_zoomed && s.focused_panel != PanelId::Hosts {
            if s.focused_panel == PanelId::Ping || s.focused_panel == PanelId::Recent {
                push_hint(v, "\u{2191}\u{2193}", "select");
                push_hint(v, "\u{21b5}", "connect");
            } else {
                push_hint(v, "\u{2191}\u{2193}", "scroll");
            }
        }
        if s.panel_zoomed {
            push_hint(v, "drag", "copy");
        }
    }
    assert(hints_text(v@) =~= before + zoom_hints(*s));
}

fn push_broadcast_hints(v: &mut Vec<KeyHint>, s: &FooterState)
    ensures
        hints_text(final(v)@) == hints_text(old(v)@) + broadcast_hints(*s),
{
    let ghost before = hints_text(v@);
    if s.broadcast_running {
        push_hint(v, "x", "cancel");
        if s.focused_panel == PanelId::Broadcast {
            push_hint(v, "z", "zoom");
        }
    } else if s.broadcast_errors {
        push_hint(v, "x", "clear errors");
    }
    if s.mode == AppMode::BroadcastPickTarget || s.mode == AppMode::BroadcastCommand || s.mode
        == AppMode::BroadcastPreview {
        push_hint(v, "\u{21b5}", "next");
        push_hint(v, "Esc", "cancel");
    }
    assert(hints_text(v@) =~= before + broadcast_hints(*s));
}

proof fn lemma_place_of_label(hints: Seq<(Seq<char>, Seq<char>)>, label: Seq<char>, i: int)
    requires
        0 <= i <= hints.len(),
        forall|k: int| 0 <= k < i ==> (#[trigger] hints[k]).1 != label,
        i < hints.len() ==> hints[i].1 == label,
    ensures
        place_of_label(hints, label) == i,
    decreases hints.len(),
{
    if i > 0 {
        let rest = hints.skip(1);
        assert forall|k: int| 0 <= k < i - 1 implies (#[trigger] rest[k]).1 != label by {
            assert(hints[k + 1].1 != label);
        }
        lemma_place_of_label(rest, label, i - 1);
    }
}

/// Take the first key of a label out, if there is one.
fn pull_hint(v: &mut Vec<KeyHint>, label: &str) -> (r: Option<KeyHint>)
    ensures
        hints_text(final(v)@) == pulled(hints_text(old(v)@), label@).0,
        r is Some ==> seq![(r->0.key@, r->0.label@)] == pulled(hints_text(old(v)@), label@).1,
        r is None ==> pulled(hints_text(old(v)@), label@).1 == Seq::<
            (Seq<char>, Seq<char>),
        >::empty(),
{
    let ghost before = hints_text(v@);
    let mut i: usize = 0;
    while i < v.len()
        invariant
            i <= v@.len(),
            before == hints_text(v@),
            v@ == old(v)@,
            forall|k: int| 0 <= k < i ==> (#[trigger] before[k]).1 != label@,
        decreases v@.len() - i,
    {
        if str::eq(v[i].label.as_str(), label) {
            proof {
                lemma_place_of_label(before, label@, i as int);
            }
            let hint = v.remove(i);
            assert(hints_text(v@) =~= before.remove(i as int));
            return Some(hint);
        }
        i = i + 1;
    }
    proof {
        lemma_place_of_label(before, label@, i as int);
    }
    None
}

/// Add a key that was taken out, if there is one; how many were added.
fn push_pulled(v: &mut Vec<KeyHint>, hint: Option<KeyHint>) -> (r: usize)
    ensures
        hint is Some ==> hints_text(final(v)@) == hints_text(old(v)@).push(
            (hint->0.key@, hint->0.label@),
        ) && r == 1,
        hint is None ==> final(v)@ == old(v)@ && r == 0,
{
    match hint {
        Some(h) => {
            let ghost before = hints_text(v@);
            let ghost pair = (h.key@, h.label@);
            v.push(h);
            assert(hints_text(v@) =~= before.push(pair));
            1
        },
        None => 0,
    }
}

/// The keys that the footer names, and how many at the end must stay when there is no
/// room for all of them. `session_hints` are the keys of the open sessions; there are
/// none where none is open.
pub fn footer_keybinds(s: &FooterState, session_hints: Vec<KeyHint>) -> (r: (Vec<KeyHint>, usize))
    ensures
        (hints_text(r.0@), r.1 as nat) == pinned_last(
            all_hints(*s, hints_text(session_hints@)),
        ),
{
    let mut v = list_tab_hints(s);
    push_zoom_hints(&mut v, s);
    push_broadcast_hints(&mut v, s);
    let ghost own = hints_text(v@);
    let ghost given = hints_text(session_hints@);
    let mut more = session_hints;
    v.append(&mut more);
    let ghost all = hints_text(v@);
    assert(all =~= own + given);
    let resume = pull_hint(&mut v, "resume");
    let help = pull_hint(&mut v, "help");
    let quit = pull_hint(&mut v, "quit");
    let ghost rest = hints_text(v@);
    let a: usize = push_pulled(&mut v, resume);
    let b: usize = push_pulled(&mut v, help);
    let c: usize = push_pulled(&mut v, quit);
    assert(hints_text(v@) =~= pinned_last(all).0);
    (v, a + b + c)
}

/// Pinning loses no key and invents none.
pub proof fn law_footer_keeps_every_key(hints: Seq<(Seq<char>, Seq<char>)>)
    ensures
        pinned_last(hints).0.to_multiset() == hints.to_multiset(),
        pinned_last(hints).0.len() == hints.len(),
        pinned_last(hints).1 <= 3,
{
    let (a, resume) = pulled(hints, "resume"@);
    let (b, help) = pulled(a, "help"@);
    let (c, quit) = pulled(b, "quit"@);
    lemma_pulled(hints, "resume"@);
    lemma_pulled(a, "help"@);
    lemma_pulled(b, "quit"@);
    broadcast use vstd::seq_lib::group_to_multiset_ensures;

    vstd::seq_lib::lemma_multiset_commutative(c, resume + help + quit);
    vstd::seq_lib::lemma_multiset_commutative(resume + help, quit);
    vstd::seq_lib::lemma_multiset_commutative(resume, help);
    assert(pinned_last(hints).0.to_multiset() =~= hints.to_multiset());
}

proof fn lemma_pulled(hints: Seq<(Seq<char>, Seq<char>)>, label: Seq<char>)
    ensures
        pulled(hints, label).0.to_multiset().add(pulled(hints, label).1.to_multiset())
            == hints.to_multiset(),
        pulled(hints, label).0.len() + pulled(hints, label).1.len() == hints.len(),
        pulled(hints, label).1.len() <= 1,
{
    broadcast use vstd::seq_lib::group_to_multiset_ensures;

    lemma_label_bounds(hints, label);
    let i = place_of_label(hints, label);
    if i < hints.len() {
        let one = seq![hints[i]];
        assert(one =~= Seq::<(Seq<char>, Seq<char>)>::empty().push(hints[i]));
        assert(pulled(hints, label).0.to_multiset().add(one.to_multiset())
            =~= hints.to_multiset());
    } else {
        assert(hints.to_multiset().add(
            Seq::<(Seq<char>, Seq<char>)>::empty().to_multiset(),
        ) =~= hints.to_multiset());
    }
}

proof fn lemma_label_bounds(hints: Seq<(Seq<char>, Seq<char>)>, label: Seq<char>)
    ensures
        0 <= place_of_label(hints, label) <= hints.len(),
        place_of_label(hints, label) < hints.len() ==> hints[place_of_label(
            hints,
            label,
        )].1 == label,
    decreases hints.len(),
{
    if hints.len() > 0 && hints[0].1 != label {
        lemma_label_bounds(hints.skip(1), label);
    }
}

proof fn lemma_label_found(hints: Seq<(Seq<char>, Seq<char>)>, label: Seq<char>, i: int)
    requires
        0 <= i < hints.len(),
        hints[i].1 == label,
    ensures
        place_of_label(hints, label) <= i,
    decreases hints.len(),
{
    if i > 0 && hints[0].1 != label {
        lemma_label_found(hints.skip(1), label, i - 1);
    }
}

/// The way out is on every tab, and it is the very last key, so that it is never cut
/// off.
pub proof fn law_quit_is_last(s: FooterState, session_hints: Seq<(Seq<char>, Seq<char>)>)
    ensures
        ({
            let (hints, pinned) = pinned_last(all_hints(s, session_hints));
            &&& pinned >= 1
            &&& hints.len() >= pinned
            &&& hints.last().1 == "quit"@
        }),
{
    let all = all_hints(s, session_hints);
    let (a, resume) = pulled(all, "resume"@);
    let (b, help) = pulled(a, "help"@);
    let (c, quit) = pulled(b, "quit"@);
    reveal_strlit("resume");
    reveal_strlit("help");
    reveal_strlit("quit");
    let n = tab_hints(s).len() - 1;
    assert(all[n].1 == "quit"@);
    assert(exists|i: int| 0 <= i < all.len() && all[i].1 == "quit"@);
    assert("help"@[0] == 'h' && "quit"@[0] == 'q');
    lemma_other_label_stays(all, "resume"@, "quit"@);
    lemma_other_label_stays(a, "help"@, "quit"@);
    let i = choose|i: int| 0 <= i < b.len() && b[i].1 == "quit"@;
    lemma_label_found(b, "quit"@, i);
    lemma_label_bounds(b, "quit"@);
    law_footer_keeps_every_key(all);
}

/// Whether a label stands among keys.
pub open spec fn labelled(hints: Seq<(Seq<char>, Seq<char>)>, label: Seq<char>) -> bool {
    exists|i: int| 0 <= i < hints.len() && (#[trigger] hints[i]).1 == label
}

proof fn lemma_label_pulled(hints: Seq<(Seq<char>, Seq<char>)>, label: Seq<char>)
    requires
        labelled(hints, label),
    ensures
        pulled(hints, label).1.len() == 1,
        pulled(hints, label).1[0].1 == label,
{
    let i = choose|i: int| 0 <= i < hints.len() && (#[trigger] hints[i]).1 == label;
    lemma_label_found(hints, label, i);
    lemma_label_bounds(hints, label);
}

/// The help, and the way back into a session where there is one, are among the keys at
/// the end that are never cut off.
pub proof fn law_help_and_resume_are_pinned(
    s: FooterState,
    session_hints: Seq<(Seq<char>, Seq<char>)>,
)
    ensures
        ({
            let (hints, pinned) = pinned_last(all_hints(s, session_hints));
            let tail = hints.skip(hints.len() - pinned);
            &&& s.active_tab <= 4 ==> labelled(tail, "help"@)
            &&& labelled(session_hints, "resume"@) ==> labelled(tail, "resume"@)
        }),
{
    let all = all_hints(s, session_hints);
    let (a, resume) = pulled(all, "resume"@);
    let (b, help) = pulled(a, "help"@);
    let (c, quit) = pulled(b, "quit"@);
    let (hints, pinned) = pinned_last(all);
    let tail = hints.skip(hints.len() - pinned);
    assert(tail =~= resume + help + quit);
    if labelled(session_hints, "resume"@) {
        let i = choose|i: int|
            0 <= i < session_hints.len() && (#[trigger] session_hints[i]).1 == "resume"@;
        assert(all[all.len() - session_hints.len() + i].1 == "resume"@);
        lemma_label_pulled(all, "resume"@);
        assert(tail[0].1 == "resume"@);
    }
    if s.active_tab <= 4 {
        reveal_strlit("resume");
        reveal_strlit("help");
        assert("resume"@[0] == 'r' && "help"@[0] == 'h');
        assert(all[tab_hints(s).len() - 2].1 == "help"@);
        lemma_other_label_stays(all, "resume"@, "help"@);
        lemma_label_pulled(a, "help"@);
        assert(tail[resume.len() as int].1 == "help"@);
    }
}

/// The footer does not change when a popup opens over the dashboard, unless it is a
/// step in putting a command for several hosts together.
pub proof fn law_popups_keep_the_footer(
    s: FooterState,
    t: FooterState,
    session_hints: Seq<(Seq<char>, Seq<char>)>,
)
    requires
        s == (FooterState { mode: s.mode, ..t }),
        !in_broadcast_wizard(s.mode),
        !in_broadcast_wizard(t.mode),
    ensures
        pinned_last(all_hints(s, session_hints)) == pinned_last(all_hints(t, session_hints)),
{
    assert(tab_hints(s) == tab_hints(t));
    assert(zoom_hints(s) == zoom_hints(t));
    assert(broadcast_hints(s) == broadcast_hints(t));
}

/// Taking a key out leaves the keys of other labels.
proof fn lemma_other_label_stays(
    hints: Seq<(Seq<char>, Seq<char>)>,
    label: Seq<char>,
    other: Seq<char>,
)
    requires
        label != other,
        exists|i: int| 0 <= i < hints.len() && (#[trigger] hints[i]).1 == other,
    ensures
        exists|i: int|
            0 <= i < pulled(hints, label).0.len() && (#[trigger] pulled(hints, label).0[i]).1
                == other,
{
    lemma_label_bounds(hints, label);
    let i = choose|i: int| 0 <= i < hints.len() && (#[trigger] hints[i]).1 == other;
    let p = place_of_label(hints, label);
    let rest = pulled(hints, label).0;
    if p < hints.len() {
        if i < p {
            assert(rest[i].1 == other);
        } else {
            assert(rest[i - 1].1 == other);
        }
    } else {
        assert(rest[i].1 == other);
    }
}

// ---------------------------------------------------------------------------
// What every key does

/// What each key does on the tab of the hosts, in the order in which the footer has them;
/// nothing else that the footer depends on makes a difference.
pub proof fn law_keys_of_the_hosts(s: FooterState)
    requires
        s.active_tab == 0,
    ensures
        ({
            let h = tab_hints(s);
            &&& h.len() == 13
            &&& h[0] == ("\u{2191}\u{2193}"@, "select"@)
            &&& h[1] == ("\u{21b5}"@, "connect"@)
            &&& h[2] == ("/"@, "search"@)
            &&& h[3] == ("#"@, "tags"@)
            &&& h[4] == ("a"@, "add"@)
            &&& h[5] == ("e"@, "edit"@)
            &&& h[6] == ("d"@, "del"@)
            &&& h[7] == ("P"@, "push key"@)
            &&& h[8] == ("+/-"@, "zoom"@)
            &&& h[9] == ("\u{2423}"@, "fold"@)
            &&& h[10] == ("G"@, "groups"@)
            &&& h[11] == ("?"@, "help"@)
            &&& h[12] == ("q"@, "quit"@)
        }),
{
}

/// What each key does on the tab of the tunnels, in the order in which the footer has them;
/// nothing else that the footer depends on makes a difference.
pub proof fn law_keys_of_the_tunnels(s: FooterState)
    requires
        s.active_tab == 2,
    ensures
        ({
            let h = tab_hints(s);
            &&& h.len() == 9
            &&& h[0] == ("\u{2191}\u{2193}"@, "select"@)
            &&& h[1] == ("\u{21b5}"@, "start/stop"@)
            &&& h[2] == ("a"@, "new tunnel"@)
            &&& h[3] == ("e"@, "edit"@)
            &&& h[4] == ("d"@, "delete"@)
            &&& h[5] == ("x"@, "kill"@)
            &&& h[6] == ("R"@, "reconnect"@)
            &&& h[7] == ("?"@, "help"@)
            &&& h[8] == ("q"@, "quit"@)
        }),
{
}

/// What each key does on the tab of the keys, in the order in which the footer has them;
/// nothing else that the footer depends on makes a difference.
pub proof fn law_keys_of_the_key_tab(s: FooterState)
    requires
        s.active_tab == 3,
    ensures
        ({
            let h = tab_hints(s);
            &&& h.len() == 10
            &&& h[0] == ("\u{2191}\u{2193}\u{2190}\u{2192}"@, "move"@)
            &&& h[1] == ("[ ]"@, "columns"@)
            &&& h[2] == ("a"@, "add"@)
            &&& h[3] == ("g"@, "generate"@)
            &&& h[4] == ("e"@, "edit"@)
            &&& h[5] == ("d"@, "delete"@)
            &&& h[6] == ("p/r"@, "agent +/-"@)
            &&& h[7] == ("P"@, "push key"@)
            &&& h[8] == ("?"@, "help"@)
            &&& h[9] == ("q"@, "quit"@)
        }),
{
}

/// What each key does on the tab of the audit, in the order in which the footer has them;
/// nothing else that the footer depends on makes a difference.
pub proof fn law_keys_of_the_audit(s: FooterState)
    requires
        s.active_tab == 4,
    ensures
        ({
            let h = tab_hints(s);
            &&& h.len() == 5
            &&& h[0] == ("\u{2191}\u{2193}"@, "select"@)
            &&& h[1] == ("f"@, "filter"@)
            &&& h[2] == ("r"@, "range"@)
            &&& h[3] == ("?"@, "help"@)
            &&& h[4] == ("q"@, "quit"@)
        }),
{
}

/// What each key does on the tab of the file transfer. The way to a second host is
/// replaced by the way back to this machine while the left pane shows another server,
/// and the key for hidden files says what it would do.
pub proof fn law_keys_of_the_file_transfer(s: FooterState)
    requires
        s.active_tab == 1,
    ensures
        ({
            let h = tab_hints(s);
            &&& h.len() == 19
            &&& h[0] == ("\u{2191}\u{2193}"@, "select"@)
            &&& h[1] == ("\u{21b5}"@, "enter/connect"@)
            &&& h[2] == ("\u{21c6}"@, "focus"@)
            &&& h[4] == ("\u{2190}"@, "download"@)
            &&& h[5] == ("\u{2192}"@, "upload"@)
            &&& h[6] == ("c"@, "run"@)
            &&& h[7] == ("u"@, "unstage"@)
            &&& h[8] == ("d"@, "delete"@)
            &&& h[9] == ("n"@, "new dir"@)
            &&& h[10] == ("R"@, "rename"@)
            &&& h[11] == ("M"@, "chmod"@)
            &&& h[12] == ("r"@, "refresh"@)
            &&& h[13] == ("s"@, "ssh"@)
            &&& h[15] == ("/"@, "search"@)
            &&& h[16] == ("Esc"@, "back"@)
            &&& h[17] == ("?"@, "help"@)
            &&& h[18] == ("q"@, "quit"@)
            &&& s.sftp_left_is_remote ==> h[3] == ("O"@, "local"@)
            &&& !s.sftp_left_is_remote ==> h[3] == ("o"@, "2nd host"@)
            &&& h[14].0 == "."@
            &&& s.sftp_show_hidden ==> h[14].1 == "hide dotfiles"@
            &&& !s.sftp_show_hidden ==> h[14].1 == "show hidden"@
        }),
{
}

/// A tab that there is not has no key but the way out.
pub proof fn law_keys_of_no_tab(s: FooterState)
    requires
        s.active_tab > 4,
    ensures
        tab_hints(s).len() == 1,
        tab_hints(s)[0] == ("q"@, "quit"@),
{
}

/// On the tab of the hosts a panel is zoomed and unzoomed with the same key. A zoomed
/// panel has that key first and the copying of text last; between them it is either
/// scrolled or, where its lines are hosts, selected from and connected to, unless it is
/// the list of hosts. Other tabs, and the list of hosts while it is not zoomed, have
/// none of these keys.
pub proof fn law_keys_of_a_panel(s: FooterState)
    ensures
        ({
            let h = zoom_hints(s);
            let other = s.focused_panel != PanelId::Hosts;
            let hosts = s.focused_panel == PanelId::Ping || s.focused_panel == PanelId::Recent;
            &&& s.active_tab != 0 ==> h.len() == 0
            &&& s.active_tab == 0 && !s.panel_zoomed && !other ==> h.len() == 0
            &&& s.active_tab == 0 && !s.panel_zoomed && other ==> h.len() == 1 && h[0] == (
                "z"@,
                "zoom"@,
            )
            &&& s.active_tab == 0 && s.panel_zoomed ==> {
                &&& h[0] == ("z"@, "unzoom"@)
                &&& h.last() == ("drag"@, "copy"@)
                &&& h.len() == (if !other {
                    2int
                } else if hosts {
                    4int
                } else {
                    3int
                })
                &&& hosts ==> h[1] == ("\u{2191}\u{2193}"@, "select"@) && h[2] == (
                    "\u{21b5}"@,
                    "connect"@,
                )
                &&& other && !hosts ==> h[1] == ("\u{2191}\u{2193}"@, "scroll"@)
            }
        }),
{
}

/// A command that is being sent can be cancelled, and its panel be zoomed while that is
/// focused; once it is done, its errors can be cleared. While it is put together, the
/// last two keys lead on and out.
pub proof fn law_keys_of_a_command(s: FooterState)
    ensures
        ({
            let h = broadcast_hints(s);
            let wizard = s.mode == AppMode::BroadcastPickTarget || s.mode
                == AppMode::BroadcastCommand || s.mode == AppMode::BroadcastPreview;
            let zoom = s.focused_panel == PanelId::Broadcast;
            let own: int = if s.broadcast_running {
                if zoom {
                    2
                } else {
                    1
                }
            } else if s.broadcast_errors {
                1
            } else {
                0
            };
            &&& h.len() == own + (if wizard {
                2int
            } else {
                0int
            })
            &&& s.broadcast_running ==> h[0] == ("x"@, "cancel"@)
            &&& s.broadcast_running && zoom ==> h[1] == ("z"@, "zoom"@)
            &&& !s.broadcast_running && s.broadcast_errors ==> h[0] == ("x"@, "clear errors"@)
            &&& wizard ==> h[own] == ("\u{21b5}"@, "next"@) && h.last() == ("Esc"@, "cancel"@)
        }),
{
}

/// The keys of the tab come first, then those of the panel, then those of a command for
/// several hosts, and last those of the open sessions.
pub proof fn law_keys_are_in_order(s: FooterState, session_hints: Seq<(Seq<char>, Seq<char>)>)
    ensures
        ({
            let all = all_hints(s, session_hints);
            let a = tab_hints(s).len() as int;
            let b = a + zoom_hints(s).len();
            let c = b + broadcast_hints(s).len();
            &&& all.len() == c + session_hints.len()
            &&& all.take(a) == tab_hints(s)
            &&& all.subrange(a, b) == zoom_hints(s)
            &&& all.subrange(b, c) == broadcast_hints(s)
            &&& all.skip(c) == session_hints
        }),
{
    let all = all_hints(s, session_hints);
    let a = tab_hints(s).len() as int;
    let b = a + zoom_hints(s).len();
    let c = b + broadcast_hints(s).len();
    assert(all.take(a) =~= tab_hints(s));
    assert(all.subrange(a, b) =~= zoom_hints(s));
    assert(all.subrange(b, c) =~= broadcast_hints(s));
    assert(all.skip(c) =~= session_hints);
}

/// Whether no key is one of those that must stay.
pub open spec fn may_go(hints: Seq<(Seq<char>, Seq<char>)>) -> bool {
    !labelled(hints, "resume"@) && !labelled(hints, "help"@) && !labelled(hints, "quit"@)
}

proof fn lemma_pulled_between(
    a: Seq<(Seq<char>, Seq<char>)>,
    hint: (Seq<char>, Seq<char>),
    b: Seq<(Seq<char>, Seq<char>)>,
)
    requires
        !labelled(a, hint.1),
    ensures
        pulled(a + seq![hint] + b, hint.1) == (a + b, seq![hint]),
{
    let all = a + seq![hint] + b;
    assert forall|k: int| 0 <= k < a.len() implies (#[trigger] all[k]).1 != hint.1 by {
        assert(a[k].1 != hint.1);
    }
    assert(all[a.len() as int] == hint);
    lemma_place_of_label(all, hint.1, a.len() as int);
    assert(all.remove(a.len() as int) =~= a + b);
}

proof fn lemma_nothing_pulled(hints: Seq<(Seq<char>, Seq<char>)>, label: Seq<char>)
    requires
        !labelled(hints, label),
    ensures
        pulled(hints, label) == (hints, Seq::<(Seq<char>, Seq<char>)>::empty()),
{
    assert forall|k: int| 0 <= k < hints.len() implies (#[trigger] hints[k]).1 != label by {}
    lemma_place_of_label(hints, label, hints.len() as int);
}

/// Of the keys that must stay, the way back into a session is put first, the help
/// second and the way out last, behind all others, which keep their order; and as many
/// as there are of the three must stay.
pub proof fn law_pinned_keys_are_moved(
    a: Seq<(Seq<char>, Seq<char>)>,
    help: Seq<char>,
    quit: Seq<char>,
    b: Seq<(Seq<char>, Seq<char>)>,
    resume: Seq<char>,
    c: Seq<(Seq<char>, Seq<char>)>,
)
    requires
        may_go(a),
        may_go(b),
        may_go(c),
    ensures
        pinned_last(a) == (a, 0nat),
        pinned_last(a + seq![(help, "help"@), (quit, "quit"@)] + b) == (
            a + b + seq![(help, "help"@), (quit, "quit"@)],
            2nat,
        ),
        pinned_last(
            a + seq![(help, "help"@), (quit, "quit"@)] + b + seq![(resume, "resume"@)] + c,
        ) == (a + b + c + seq![(resume, "resume"@), (help, "help"@), (quit, "quit"@)], 3nat),
{
    let none = Seq::<(Seq<char>, Seq<char>)>::empty();
    let h = (help, "help"@);
    let q = (quit, "quit"@);
    let r = (resume, "resume"@);
    reveal_strlit("resume");
    reveal_strlit("help");
    reveal_strlit("quit");
    assert("resume"@[0] == 'r' && "help"@[0] == 'h' && "quit"@[0] == 'q');
    lemma_nothing_pulled(a, "resume"@);
    lemma_nothing_pulled(a, "help"@);
    lemma_nothing_pulled(a, "quit"@);
    assert(a + (none + none + none) =~= a);
    lemma_two_pinned(a, h, q, b);
    let two = a + seq![h, q] + b;
    assert(!labelled(two, "resume"@)) by {
        if labelled(two, "resume"@) {
            let i = choose|i: int| 0 <= i < two.len() && (#[trigger] two[i]).1 == "resume"@;
            if i < a.len() {
                assert(a[i].1 == "resume"@);
            } else if i >= a.len() + 2 {
                assert(b[i - a.len() - 2].1 == "resume"@);
            }
        }
    }
    lemma_nothing_pulled(two, "resume"@);
    assert(a + b + (none + seq![h] + seq![q]) =~= a + b + seq![h, q]);
    assert((none + seq![h] + seq![q]).len() == 2);
    lemma_pulled_between(two, r, c);
    let bc = b + c;
    assert(may_go(bc)) by {
        lemma_label_in_either(b, c, "resume"@);
        lemma_label_in_either(b, c, "help"@);
        lemma_label_in_either(b, c, "quit"@);
    }
    assert(two + c =~= a + seq![h, q] + bc);
    lemma_two_pinned(a, h, q, bc);
    assert(a + bc + (seq![r] + seq![h] + seq![q]) =~= a + b + c + seq![r, h, q]);
    assert((seq![r] + seq![h] + seq![q]).len() == 3);
}

proof fn lemma_label_in_either(
    a: Seq<(Seq<char>, Seq<char>)>,
    b: Seq<(Seq<char>, Seq<char>)>,
    label: Seq<char>,
)
    ensures
        labelled(a + b, label) ==> labelled(a, label) || labelled(b, label),
{
    let all = a + b;
    if labelled(all, label) {
        let i = choose|i: int| 0 <= i < all.len() && (#[trigger] all[i]).1 == label;
        if i < a.len() {
            assert(a[i].1 == label);
        } else {
            assert(b[i - a.len()].1 == label);
        }
    }
}

proof fn lemma_two_pinned(
    a: Seq<(Seq<char>, Seq<char>)>,
    h: (Seq<char>, Seq<char>),
    q: (Seq<char>, Seq<char>),
    b: Seq<(Seq<char>, Seq<char>)>,
)
    requires
        may_go(a),
        h.1 == "help"@,
        q.1 == "quit"@,
    ensures
        pulled(a + seq![h, q] + b, "help"@) == (a + seq![q] + b, seq![h]),
        pulled(a + seq![q] + b, "quit"@) == (a + b, seq![q]),
{
    assert(a + seq![h, q] + b =~= a + seq![h] + (seq![q] + b));
    assert(a + seq![q] + b =~= a + (seq![q] + b));
    lemma_pulled_between(a, h, seq![q] + b);
    lemma_pulled_between(a, q, b);
}

/// The keys are read one by one: what is named, and what it does.
pub proof fn law_hints_are_read_as_they_are(v: Seq<KeyHint>, i: int)
    ensures
        hints_text(v).len() == v.len(),
        0 <= i < v.len() ==> hints_text(v)[i].0 == v[i].key@ && hints_text(v)[i].1 == v[i].label@,
{
}

} // verus!
