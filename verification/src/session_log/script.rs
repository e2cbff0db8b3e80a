//! Recording a session with `script(1)`: the command line around the real one.

use vstd::prelude::*;

use crate::session_log::is_alphanumeric;
use crate::text::{chars_of, clone_texts, texts};

verus! {

/// The systems that differ in how `script` is called.
#[derive(Debug, Clone, Copy, PartialEq, Eq, Structural)]
pub enum ScriptPlatform {
    Linux,
    MacOs,
    Other,
}

/// The characters that a shell word may hold without quotes.
pub open spec fn is_plain_word_char(c: char) -> bool {
    is_alphanumeric(c) || c == '-' || c == '_' || c == '.' || c == '/'
}

/// Whether a word needs no quotes: it is not empty and holds plain characters.
pub open spec fn is_plain_word(w: Seq<char>) -> bool {
    w.len() > 0 && forall|i: int| 0 <= i < w.len() ==> is_plain_word_char(#[trigger] w[i])
}

/// The text with every single quote closed, escaped and opened again.
pub open spec fn quotes_escaped(w: Seq<char>) -> Seq<char>
    decreases w.len(),
{
    if w.len() == 0 {
        Seq::empty()
    } else if w.last() == '\'' {
        quotes_escaped(w.drop_last()) + seq!['\'', '\\', '\'', '\'']
    } else {
        quotes_escaped(w.drop_last()).push(w.last())
    }
}

/// A word as a shell reads it back: plain, or in single quotes.
pub open spec fn quoted_word(w: Seq<char>) -> Seq<char> {
    if is_plain_word(w) {
        w
    } else {
        seq!['\''] + quotes_escaped(w) + seq!['\'']
    }
}

/// A command line: every argument quoted, with a space between any two.
pub open spec fn command_line(argv: Seq<Seq<char>>) -> Seq<char> {
    crate::text::joined(argv.map_values(|w: Seq<char>| quoted_word(w)), " "@)
}

fn char_is_plain(c: char) -> (r: bool)
    ensures
        r == is_plain_word_char(c),
{
    ('a' <= c && c <= 'z') || ('A' <= c && c <= 'Z') || ('0' <= c && c <= '9') || c == '-' || c
        == '_' || c == '.' || c == '/'
}

/// Quotes one argument for a shell.
pub fn shell_quote(s: &str) -> (r: String)
    ensures
        r@ == quoted_word(s@),
{
    let v = chars_of(s);
    let mut plain = v.len() > 0;
    let mut i: usize = 0;
    while i < v.len()
        invariant
            i <= v@.len(),
            plain <==> v@.len() > 0 && forall|k: int|
                0 <= k < i ==> is_plain_word_char(#[trigger] v@[k]),
        decreases v@.len() - i,
    {
        if !char_is_plain(v[i]) {
            plain = false;
        }
        i = i + 1;
    }
    if plain {
        return s.to_owned();
    }
    let mut out = String::new();
    out.push('\'');
    let mut i: usize = 0;
    assert(out@ =~= seq!['\''] + quotes_escaped(v@.take(0)));
    while i < v.len()
        invariant
            i <= v@.len(),
            out@ == seq!['\''] + quotes_escaped(v@.take(i as int)),
        decreases v@.len() - i,
    {
        proof {
            assert(v@.take(i + 1).drop_last() =~= v@.take(i as int));
            assert(v@.take(i + 1).last() == v@[i as int]);
        }
        let c = v[i];
        if c == '\'' {
            out.push('\'');
            out.push('\\');
            out.push('\'');
            out.push('\'');
        } else {
            out.push(c);
        }
        i = i + 1;
        assert(out@ =~= seq!['\''] + quotes_escaped(v@.take(i as int)));
    }
    assert(v@.take(i as int) =~= s@);
    out.push('\'');
    assert(out@ =~= quoted_word(s@));
    out
}

/// Joins a command's arguments into one line for a shell.
pub fn shell_join(argv: &Vec<String>) -> (r: String)
    ensures
        r@ == command_line(texts(argv@)),
{
    let mut quoted: Vec<String> = Vec::new();
    let mut i: usize = 0;
    while i < argv.len()
        invariant
            i <= argv@.len(),
            quoted@.len() == i,
            forall|k: int| 0 <= k < i ==> (#[trigger] quoted@[k])@ == quoted_word(argv@[k]@),
        decreases argv@.len() - i,
    {
        quoted.push(shell_quote(argv[i].as_str()));
        i = i + 1;
    }
    assert(texts(quoted@) =~= texts(argv@).map_values(|w: Seq<char>| quoted_word(w)));
    crate::text::join_texts(&quoted, " ")
}

/// The command that records `argv` into `log`, where the platform has one.
pub open spec fn script_command(
    platform: ScriptPlatform,
    log: Seq<char>,
    argv: Seq<Seq<char>>,
) -> Option<Seq<Seq<char>>> {
    match platform {
        ScriptPlatform::Linux => Some(
            seq!["script"@, "-q"@, "-a"@, log, "-c"@, command_line(argv)],
        ),
        ScriptPlatform::MacOs => Some(seq!["script"@, "-q"@, log] + argv),
        ScriptPlatform::Other => None,
    }
}

/// Wrap `inner_argv` in a platform `script(1)` invocation for session logging.
///
/// Returns `None` when there is nothing to run, when `script` is unavailable or
/// when the platform has no supported wrapper.
pub fn wrap_script_command(
    log_path: &str,
    inner_argv: &Vec<String>,
    script_available: bool,
    platform: ScriptPlatform,
) -> (r: Option<Vec<String>>)
    ensures
        r is Some <==> inner_argv@.len() > 0 && script_available && platform
            != ScriptPlatform::Other,
        r matches Some(argv) ==> Some(texts(argv@)) == script_command(
            platform,
            log_path@,
            texts(inner_argv@),
        ),
{
    if inner_argv.len() == 0 || !script_available {
        return None;
    }
    let mut argv: Vec<String> = Vec::new();
    argv.push("script".to_owned());
    argv.push("-q".to_owned());
    match platform {
        ScriptPlatform::Linux => {
            argv.push("-a".to_owned());
            argv.push(log_path.to_owned());
            argv.push("-c".to_owned());
            argv.push(shell_join(inner_argv));
            assert(texts(argv@) =~= seq![
                "script"@,
                "-q"@,
                "-a"@,
                log_path@,
                "-c"@,
                command_line(texts(inner_argv@)),
            ]);
            Some(argv)
        },
        ScriptPlatform::MacOs => {
            argv.push(log_path.to_owned());
            let mut rest = clone_texts(inner_argv);
            argv.append(&mut rest);
            assert(texts(argv@) =~= seq!["script"@, "-q"@, log_path@] + texts(inner_argv@));
            Some(argv)
        },
        ScriptPlatform::Other => None,
    }
}

// ---------------------------------------------------------------------------
// What a shell makes of a command line

/// Where a shell stands while it reads a line.
pub enum ShellMode {
    /// Outside quotes.
    Plain,
    /// Between single quotes.
    Quoted,
    /// Behind a backslash.
    Escaped,
}

/// What a shell has read of a line: the words that are complete, the word it is
/// in, if any, and whether all characters so far stood for themselves.
pub struct ShellState {
    pub words: Seq<Seq<char>>,
    pub current: Option<Seq<char>>,
    pub mode: ShellMode,
    pub literal: bool,
}

/// The word that a state is in, empty where none has begun.
pub open spec fn word_so_far(st: ShellState) -> Seq<char> {
    match st.current {
        Some(w) => w,
        None => Seq::empty(),
    }
}

/// One more character. Between single quotes every character but the quote
/// stands for itself; behind a backslash any character does; elsewhere a space
/// ends a word, and characters other than the plain ones mean something else.
pub open spec fn shell_step(st: ShellState, c: char) -> ShellState {
    match st.mode {
        ShellMode::Quoted => if c == '\'' {
            ShellState { mode: ShellMode::Plain, ..st }
        } else {
            ShellState { current: Some(word_so_far(st).push(c)), ..st }
        },
        ShellMode::Escaped => ShellState {
            current: Some(word_so_far(st).push(c)),
            mode: ShellMode::Plain,
            ..st
        },
        ShellMode::Plain => if c == ' ' {
            match st.current {
                Some(w) => ShellState { words: st.words.push(w), current: None, ..st },
                None => st,
            }
        } else if c == '\'' {
            ShellState { current: Some(word_so_far(st)), mode: ShellMode::Quoted, ..st }
        } else if c == '\\' {
            ShellState { current: Some(word_so_far(st)), mode: ShellMode::Escaped, ..st }
        } else {
            ShellState {
                current: Some(word_so_far(st).push(c)),
                literal: st.literal && is_plain_word_char(c),
                ..st
            }
        },
    }
}

/// The state after a text.
pub open spec fn shell_run(st: ShellState, s: Seq<char>) -> ShellState
    decreases s.len(),
{
    if s.len() == 0 {
        st
    } else {
        shell_step(shell_run(st, s.drop_last()), s.last())
    }
}

/// The words that a shell splits a line into, where every character stands for
/// itself and every quote is closed.
pub open spec fn shell_words(line: Seq<char>) -> Option<Seq<Seq<char>>> {
    let st = shell_run(
        ShellState {
            words: Seq::empty(),
            current: None,
            mode: ShellMode::Plain,
            literal: true,
        },
        line,
    );
    if st.literal && st.mode is Plain {
        match st.current {
            Some(w) => Some(st.words.push(w)),
            None => Some(st.words),
        }
    } else {
        None
    }
}

proof fn lemma_shell_run_append(st: ShellState, a: Seq<char>, b: Seq<char>)
    ensures
        shell_run(st, a + b) == shell_run(shell_run(st, a), b),
    decreases b.len(),
{
    if b.len() == 0 {
        assert(a + b =~= a);
    } else {
        assert((a + b).drop_last() =~= a + b.drop_last());
        assert((a + b).last() == b.last());
        lemma_shell_run_append(st, a, b.drop_last());
    }
}

/// Plain characters are appended to the word.
proof fn lemma_run_plain(st: ShellState, w: Seq<char>)
    requires
        st.mode is Plain,
        w.len() > 0,
        forall|i: int| 0 <= i < w.len() ==> is_plain_word_char(#[trigger] w[i]),
    ensures
        shell_run(st, w) == (ShellState { current: Some(word_so_far(st) + w), ..st }),
    decreases w.len(),
{
    let c = w.last();
    assert(is_plain_word_char(w[w.len() - 1]));
    if w.len() == 1 {
        assert(shell_run(st, w.drop_last()) == st);
        assert(word_so_far(st) + w =~= word_so_far(st).push(c));
    } else {
        let v = w.drop_last();
        assert forall|i: int| 0 <= i < v.len() implies is_plain_word_char(#[trigger] v[i]) by {
            assert(v[i] == w[i]);
        }
        lemma_run_plain(st, v);
        assert((word_so_far(st) + v).push(c) =~= word_so_far(st) + w);
    }
}

/// Between quotes the escaped text is read as the text.
proof fn lemma_run_escaped(st: ShellState, w: Seq<char>)
    requires
        st.mode is Quoted,
        st.current is Some,
    ensures
        shell_run(st, quotes_escaped(w)) == (ShellState {
            current: Some(word_so_far(st) + w),
            ..st
        }),
    decreases w.len(),
{
    if w.len() == 0 {
        assert(word_so_far(st) + w =~= word_so_far(st));
    } else {
        let v = w.drop_last();
        lemma_run_escaped(st, v);
        let mid = shell_run(st, quotes_escaped(v));
        assert((word_so_far(st) + v).push(w.last()) =~= word_so_far(st) + w);
        if w.last() == '\'' {
            let four = seq!['\'', '\\', '\'', '\''];
            lemma_shell_run_append(st, quotes_escaped(v), four);
            let three = seq!['\'', '\\', '\''];
            let two = seq!['\'', '\\'];
            let one = seq!['\''];
            assert(four.drop_last() =~= three);
            assert(three.drop_last() =~= two);
            assert(two.drop_last() =~= one);
            assert(one.drop_last() =~= Seq::empty());
            assert(shell_run(mid, one) == shell_step(shell_run(mid, one.drop_last()), '\''));
            assert(shell_run(mid, two) == shell_step(shell_run(mid, one), '\\'));
            assert(shell_run(mid, three) == shell_step(shell_run(mid, two), '\''));
            assert(shell_run(mid, four) == shell_step(shell_run(mid, three), '\''));
        } else {
            assert(quotes_escaped(w).drop_last() =~= quotes_escaped(v));
        }
    }
}

/// A quoted word is read as the word.
proof fn lemma_run_word(st: ShellState, w: Seq<char>)
    requires
        st.mode is Plain,
        st.current is None,
    ensures
        shell_run(st, quoted_word(w)) == (ShellState { current: Some(w), ..st }),
{
    assert(word_so_far(st) + w =~= w);
    if is_plain_word(w) {
        lemma_run_plain(st, w);
    } else {
        let open = seq!['\''];
        let body = quotes_escaped(w);
        assert(quoted_word(w) == (open + body) + open);
        lemma_shell_run_append(st, open + body, open);
        lemma_shell_run_append(st, open, body);
        assert(open.drop_last() =~= Seq::empty());
        let inside = shell_run(st, open);
        assert(inside == shell_step(shell_run(st, open.drop_last()), '\''));
        lemma_run_escaped(inside, w);
        assert(word_so_far(inside) + w =~= w);
        let after = shell_run(inside, body);
        assert(shell_run(after, open) == shell_step(shell_run(after, open.drop_last()), '\''));
    }
}

proof fn lemma_run_command_line(st: ShellState, argv: Seq<Seq<char>>)
    requires
        st.mode is Plain,
        st.current is None,
        argv.len() > 0,
    ensures
        shell_run(st, command_line(argv)) == (ShellState {
            words: st.words + argv.drop_last(),
            current: Some(argv.last()),
            ..st
        }),
    decreases argv.len(),
{
    let q = argv.map_values(|w: Seq<char>| quoted_word(w));
    if argv.len() == 1 {
        lemma_run_word(st, argv[0]);
        assert(st.words + argv.drop_last() =~= st.words);
    } else {
        let front = argv.drop_last();
        assert(q.drop_last() =~= front.map_values(|w: Seq<char>| quoted_word(w)));
        assert(q.last() == quoted_word(argv.last()));
        reveal_strlit(" ");
        let space = " "@;
        assert(space =~= seq![' ']);
        let line = command_line(front);
        assert(command_line(argv) == (line + space) + quoted_word(argv.last()));
        lemma_shell_run_append(st, line + space, quoted_word(argv.last()));
        lemma_shell_run_append(st, line, space);
        lemma_run_command_line(st, front);
        let mid = shell_run(st, line);
        assert(space.drop_last() =~= Seq::empty());
        assert(shell_run(mid, space) == shell_step(shell_run(mid, space.drop_last()), ' '));
        let next = shell_run(mid, space);
        assert((st.words + front.drop_last()).push(front.last()) =~= st.words + front);
        lemma_run_word(next, argv.last());
    }
}

/// A shell that reads the joined line gets back the arguments, one by one,
/// whatever characters they hold.
pub proof fn law_shell_reads_back(argv: Seq<Seq<char>>)
    ensures
        shell_words(command_line(argv)) == Some(argv),
{
    let st = ShellState {
        words: Seq::<Seq<char>>::empty(),
        current: None,
        mode: ShellMode::Plain,
        literal: true,
    };
    if argv.len() == 0 {
        assert(command_line(argv) =~= Seq::empty());
        assert(argv =~= Seq::empty());
    } else {
        lemma_run_command_line(st, argv);
        assert((st.words + argv.drop_last()).push(argv.last()) =~= argv);
    }
}

/// The characters that need no quotes are the ASCII letters and digits, the dash, the
/// underscore, the dot and the slash; a word made of them is left as it is, and any other
/// stands between quotes.
pub proof fn law_plain_words(c: char, w: Seq<char>)
    ensures
        ({
            let n = c as u32;
            is_plain_word_char(c) <==> 48 <= n <= 57 || 65 <= n <= 90 || 97 <= n <= 122 || n == 45
                || n == 95 || n == 46 || n == 47
        }),
        w.len() > 0 && (forall|i: int| 0 <= i < w.len() ==> is_plain_word_char(#[trigger] w[i]))
            ==> quoted_word(w) == w,
        w.len() == 0 || (exists|i: int| 0 <= i < w.len() && !is_plain_word_char(#[trigger] w[i]))
            ==> quoted_word(w).len() >= 2 && quoted_word(w)[0] == '\'' && quoted_word(w).last()
            == '\'',
{
}

/// The command that records a session: `script` without its own messages, into the log,
/// of the command itself. On Linux the log is appended to and the command is handed over
/// as a line that a shell reads back as it is; on macOS its words follow.
pub proof fn law_script_records_the_command(
    platform: ScriptPlatform,
    log: Seq<char>,
    argv: Seq<Seq<char>>,
)
    ensures
        ({
            let r = script_command(platform, log, argv);
            &&& (platform == ScriptPlatform::Other <==> r is None)
            &&& (r is Some ==> r->0[0] == "script"@ && r->0[1] == "-q"@)
            &&& (platform == ScriptPlatform::Linux ==> r->0.len() == 6 && r->0[2] == "-a"@
                && r->0[3] == log && r->0[4] == "-c"@ && shell_words(r->0[5]) == Some(argv))
            &&& (platform == ScriptPlatform::MacOs ==> r->0[2] == log && r->0.skip(3) == argv)
        }),
{
    law_shell_reads_back(argv);
    if platform == ScriptPlatform::MacOs {
        assert(script_command(platform, log, argv)->0.skip(3) =~= argv);
    }
}

} // verus!
