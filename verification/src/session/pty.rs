//! A child on a pseudo-terminal: what is run, what is read from it, and how it is
//! ended. Opening the terminal, the threads that read and the signals are the
//! caller's.

use vstd::prelude::*;

use crate::text::{clone_texts, decimal, format_u64, str_opt, texts};

verus! {

/// The most bytes that are read at once.
pub const READ_BUF: usize = 4096;

/// How long the reader of errors sleeps while there are none, in milliseconds.
pub const STDERR_POLL_MS: u64 = 20;

/// The variable that tells a child the way for its errors.
pub const STDERR_FIFO_ENV: &'static str = "SSHUB_STDERR_FIFO";

/// What is read from a child.
#[derive(Debug)]
pub enum PtyEvent {
    /// Bytes from the terminal.
    Bytes(Vec<u8>),
    /// Bytes from the child's standard error, which is kept off the terminal where
    /// the platform allows it.
    Stderr(Vec<u8>),
    /// The child is gone; why, in words.
    Exited(String),
}

// ---------------------------------------------------------------------------
// What is run

/// A command and the variables that are set for it, in order.
#[derive(Debug)]
pub struct SpawnPlan {
    pub program: String,
    pub args: Vec<String>,
    pub env: Vec<(String, String)>,
}

/// The program and the arguments of a child. With a way for its errors, a shell
/// redirects them there and then becomes the command.
pub open spec fn child_command(argv: Seq<Seq<char>>, fifo: Option<Seq<char>>) -> (
    Seq<char>,
    Seq<Seq<char>>,
) {
    if fifo is Some {
        (
            "/bin/sh"@,
            seq!["-c"@, "exec \"$@\" 2>\"$SSHUB_STDERR_FIFO\""@, "sshub"@] + argv,
        )
    } else {
        (argv[0], argv.skip(1))
    }
}

/// Pairs of texts.
pub open spec fn text_pairs(v: Seq<(String, String)>) -> Seq<(Seq<char>, Seq<char>)> {
    v.map_values(|p: (String, String)| (p.0@, p.1@))
}

/// The variables of a child: those asked for, the way for its errors, and last the
/// kind of terminal, which nothing else may set.
pub open spec fn child_env(env: Seq<(Seq<char>, Seq<char>)>, fifo: Option<Seq<char>>) -> Seq<
    (Seq<char>, Seq<char>),
> {
    env + (if fifo is Some {
        seq![(STDERR_FIFO_ENV@, fifo->0)]
    } else {
        Seq::empty()
    }) + seq![("TERM"@, "xterm-256color"@), ("COLORTERM"@, "truecolor"@)]
}

/// Lay out a child. There is none without a command.
pub fn plan_spawn(argv: &Vec<String>, env: &Vec<(String, String)>, fifo: Option<&str>) -> (r:
    Result<SpawnPlan, &'static str>)
    ensures
        match r {
            Ok(plan) => {
                &&& argv@.len() > 0
                &&& (plan.program@, texts(plan.args@)) == child_command(
                    texts(argv@),
                    str_opt(fifo),
                )
                &&& text_pairs(plan.env@) == child_env(text_pairs(env@), str_opt(fifo))
            },
            Err(text) => argv@.len() == 0 && text@ == "empty argv"@,
        },
{
    if argv.len() == 0 {
        return Err("empty argv");
    }
    let mut rest = clone_texts(argv);
    let mut args: Vec<String> = Vec::new();
    let program = match fifo {
        Some(_) => {
            args.push("-c".to_owned());
            args.push("exec \"$@\" 2>\"$SSHUB_STDERR_FIFO\"".to_owned());
            args.push("sshub".to_owned());
            args.append(&mut rest);
            assert(texts(args@) =~= child_command(texts(argv@), str_opt(fifo)).1);
            "/bin/sh".to_owned()
        },
        None => {
            let program = rest.remove(0);
            args.append(&mut rest);
            assert(texts(args@) =~= child_command(texts(argv@), str_opt(fifo)).1);
            program
        },
    };
    let mut vars: Vec<(String, String)> = Vec::new();
    let mut i: usize = 0;
    while i < env.len()
        invariant
            i <= env@.len(),
            text_pairs(vars@) == text_pairs(env@).take(i as int),
        decreases env@.len() - i,
    {
        let ghost before = text_pairs(vars@);
        vars.push((env[i].0.clone(), env[i].1.clone()));
        proof {
            assert(text_pairs(vars@) =~= before.push(text_pairs(env@)[i as int]));
            assert(text_pairs(env@).take(i + 1) =~= before.push(text_pairs(env@)[i as int]));
        }
        i = i + 1;
    }
    let ghost asked = text_pairs(vars@);
    assert(asked =~= text_pairs(env@));
    if let Some(path) = fifo {
        vars.push((STDERR_FIFO_ENV.to_owned(), path.to_owned()));
    }
    vars.push(("TERM".to_owned(), "xterm-256color".to_owned()));
    vars.push(("COLORTERM".to_owned(), "truecolor".to_owned()));
    assert(text_pairs(vars@) =~= child_env(asked, str_opt(fifo)));
    Ok(SpawnPlan { program, args, env: vars })
}

/// Whatever variables are asked for, the last setting of `TERM` and of `COLORTERM` is
/// the portable one.
pub proof fn law_terminal_kind_is_last(
    env: Seq<(Seq<char>, Seq<char>)>,
    fifo: Option<Seq<char>>,
)
    ensures
        ({
            let all = child_env(env, fifo);
            &&& all.len() >= 2
            &&& all[all.len() - 2] == ("TERM"@, "xterm-256color"@)
            &&& all.last() == ("COLORTERM"@, "truecolor"@)
        }),
{
}

/// The command that `portable_pty` runs on a terminal.
#[verifier::external_type_specification]
#[verifier::external_body]
pub struct ExCommandBuilder(portable_pty::CommandBuilder);

/// The program and the arguments of a command.
pub uninterp spec fn command_argv(c: portable_pty::CommandBuilder) -> Seq<Seq<char>>;

/// The value that a command finds under the name of a variable.
pub uninterp spec fn command_env(c: portable_pty::CommandBuilder) -> Map<Seq<char>, Seq<char>>;

/// The directory in which a command is run; none is the user's own.
pub uninterp spec fn command_dir(c: portable_pty::CommandBuilder) -> Option<Seq<char>>;

/// Whether a text is ASCII.
pub open spec fn is_ascii_text(s: Seq<char>) -> bool {
    forall|i: int| 0 <= i < s.len() ==> #[trigger] s[i] <= '\u{7f}'
}

/// A letter of ASCII in lower case.
pub open spec fn lower(c: char) -> char {
    if 'A' <= c <= 'Z' {
        (c as u8 + 32) as char
    } else {
        c
    }
}

/// Whether a text is ASCII without the letter `k`, which is the lower case of a
/// character outside ASCII, the Kelvin sign, too.
pub open spec fn is_plain_text(s: Seq<char>) -> bool {
    is_ascii_text(s) && forall|i: int|
        0 <= i < s.len() ==> #[trigger] s[i] != 'k' && s[i] != 'K'
}

/// Whether two names of variables are different ones on every platform, those that
/// make nothing of case among them: both are ASCII and differ in more than case, or only
/// one is ASCII and no lower case of the other can be it.
pub open spec fn apart(a: Seq<char>, b: Seq<char>) -> bool {
    ||| is_ascii_text(a) && is_ascii_text(b) && a.map_values(|c: char| lower(c))
        != b.map_values(|c: char| lower(c))
    ||| is_plain_text(a) && !is_ascii_text(b)
    ||| !is_ascii_text(a) && is_plain_text(b)
}

/// Whether what is found under a name is a value that was just set, or what was found
/// before.
pub open spec fn set_or_same(
    before: Map<Seq<char>, Seq<char>>,
    after: Map<Seq<char>, Seq<char>>,
    k: Seq<char>,
    value: Seq<char>,
) -> bool {
    ||| after.contains_key(k) && after[k] == value
    ||| after.contains_key(k) == before.contains_key(k) && (before.contains_key(k) ==> after[k]
        == before[k])
}

/// `CommandBuilder::new`: a command of one word, in no directory. The variables are
/// those of this process; nothing is stated of them.
#[verifier::external_body]
fn new_command(program: &str) -> (r: portable_pty::CommandBuilder)
    ensures
        command_argv(r) == seq![program@],
        command_dir(r) is None,
{
    portable_pty::CommandBuilder::new(program)
}

/// `CommandBuilder::arg`: one more word. It panics on a command without a program.
#[verifier::external_body]
fn add_arg(c: &mut portable_pty::CommandBuilder, arg: &str)
    requires
        command_argv(*old(c)).len() > 0,
    ensures
        command_argv(*final(c)) == command_argv(*old(c)).push(arg@),
        command_env(*final(c)) == command_env(*old(c)),
        command_dir(*final(c)) == command_dir(*old(c)),
{
    c.arg(arg)
}

/// `CommandBuilder::env`: a variable is set, over any earlier value. On Windows names
/// with one lower case are one; other variables stay as they are. So whatever the name,
/// what is found under it is the new value or what was found before.
#[verifier::external_body]
fn set_var(c: &mut portable_pty::CommandBuilder, key: &str, value: &str)
    ensures
        command_env(*final(c)).contains_key(key@),
        command_env(*final(c))[key@] == value@,
        forall|k: Seq<char>|
            #![trigger command_env(*final(c)).contains_key(k)]
            #![trigger command_env(*final(c))[k]]
            set_or_same(command_env(*old(c)), command_env(*final(c)), k, value@),
        forall|k: Seq<char>| #[trigger]
            apart(k, key@) && command_env(*old(c)).contains_key(k) ==> command_env(
                *final(c),
            ).contains_key(k) && command_env(*final(c))[k] == command_env(*old(c))[k],
        command_argv(*final(c)) == command_argv(*old(c)),
        command_dir(*final(c)) == command_dir(*old(c)),
{
    c.env(key, value)
}

/// `CommandBuilder::cwd`: the directory is set.
#[verifier::external_body]
fn set_dir(c: &mut portable_pty::CommandBuilder, dir: &str)
    ensures
        command_dir(*final(c)) == Some(dir@),
        command_argv(*final(c)) == command_argv(*old(c)),
        command_env(*final(c)) == command_env(*old(c)),
{
    c.cwd(dir)
}

/// Whether a setting is the last of its variable among the first `n`.
pub open spec fn stands(env: Seq<(Seq<char>, Seq<char>)>, i: int, n: int) -> bool {
    &&& 0 <= i < n <= env.len()
    &&& forall|j: int| i < j < n ==> apart(env[i].0, (#[trigger] env[j]).0)
}

/// Whether a command finds every variable as it was last set.
pub open spec fn env_holds(
    c: portable_pty::CommandBuilder,
    env: Seq<(Seq<char>, Seq<char>)>,
    n: int,
) -> bool {
    forall|i: int| #[trigger]
        stands(env, i, n) ==> command_env(c).contains_key(env[i].0) && command_env(c)[env[i].0]
            == env[i].1
}

/// Whether a value is that of setting `i` or of a later one among the first `n`.
pub open spec fn set_since(
    env: Seq<(Seq<char>, Seq<char>)>,
    i: int,
    n: int,
    value: Seq<char>,
) -> bool {
    exists|j: int| i <= j < n && (#[trigger] env[j]).1 == value
}

/// Whether a command finds each of the first `n` variables, as it was set or as a later
/// setting has it.
pub open spec fn env_keeps(
    c: portable_pty::CommandBuilder,
    env: Seq<(Seq<char>, Seq<char>)>,
    n: int,
) -> bool {
    forall|i: int|
        0 <= i < n ==> command_env(c).contains_key((#[trigger] env[i]).0) && set_since(
            env,
            i,
            n,
            command_env(c)[env[i].0],
        )
}

/// Make the command of a child, to be run in a directory where one is known. No variable
/// is left out, whatever its name; one that no later setting touches is found as it was
/// set.
pub fn build_command(plan: &SpawnPlan, dir: Option<&str>) -> (r: portable_pty::CommandBuilder)
    ensures
        command_argv(r) == seq![plan.program@] + texts(plan.args@),
        command_dir(r) == str_opt(dir),
        env_holds(r, text_pairs(plan.env@), plan.env@.len() as int),
        env_keeps(r, text_pairs(plan.env@), plan.env@.len() as int),
{
    let mut c = new_command(plan.program.as_str());
    let mut i: usize = 0;
    assert(command_argv(c) =~= seq![plan.program@] + texts(plan.args@).take(0));
    while i < plan.args.len()
        invariant
            i <= plan.args@.len(),
            command_argv(c) == seq![plan.program@] + texts(plan.args@).take(i as int),
            command_dir(c) is None,
        decreases plan.args@.len() - i,
    {
        add_arg(&mut c, plan.args[i].as_str());
        proof {
            assert(texts(plan.args@).take(i + 1) =~= texts(plan.args@).take(i as int).push(
                plan.args@[i as int]@,
            ));
            assert(command_argv(c) =~= seq![plan.program@] + texts(plan.args@).take(i + 1));
        }
        i = i + 1;
    }
    assert(texts(plan.args@).take(i as int) =~= texts(plan.args@));
    if let Some(d) = dir {
        set_dir(&mut c, d);
    }
    let ghost env = text_pairs(plan.env@);
    let mut n: usize = 0;
    while n < plan.env.len()
        invariant
            n <= plan.env@.len(),
            env == text_pairs(plan.env@),
            env_holds(c, env, n as int),
            env_keeps(c, env, n as int),
            command_argv(c) == seq![plan.program@] + texts(plan.args@),
            command_dir(c) == str_opt(dir),
        decreases plan.env@.len() - n,
    {
        let ghost before = c;
        set_var(&mut c, plan.env[n].0.as_str(), plan.env[n].1.as_str());
        proof {
            assert(env[n as int] == (plan.env@[n as int].0@, plan.env@[n as int].1@));
            assert forall|i: int| #[trigger] stands(env, i, n + 1) implies command_env(
                c,
            ).contains_key(env[i].0) && command_env(c)[env[i].0] == env[i].1 by {
                if i < n {
                    assert(stands(env, i, n as int));
                    assert(apart(env[i].0, env[n as int].0));
                }
            }
            assert forall|i: int| 0 <= i < n + 1 implies command_env(c).contains_key(
                (#[trigger] env[i]).0,
            ) && set_since(env, i, n + 1, command_env(c)[env[i].0]) by {
                if i < n && command_env(c)[env[i].0] != env[n as int].1 {
                    let j = choose|j: int|
                        i <= j < n && (#[trigger] env[j]).1 == command_env(before)[env[i].0];
                    assert(i <= j < n + 1 && env[j].1 == command_env(c)[env[i].0]);
                }
            }
        }
        n = n + 1;
    }
    c
}

/// A child finds the portable kind of terminal, whatever was asked for.
pub proof fn law_child_sees_terminal_kind(
    c: portable_pty::CommandBuilder,
    env: Seq<(Seq<char>, Seq<char>)>,
    fifo: Option<Seq<char>>,
)
    requires
        env_holds(c, child_env(env, fifo), child_env(env, fifo).len() as int),
    ensures
        command_env(c).contains_key("TERM"@),
        command_env(c)["TERM"@] == "xterm-256color"@,
        command_env(c).contains_key("COLORTERM"@),
        command_env(c)["COLORTERM"@] == "truecolor"@,
{
    let all = child_env(env, fifo);
    let n = all.len() as int;
    reveal_strlit("TERM");
    reveal_strlit("COLORTERM");
    assert("TERM"@.map_values(|c: char| lower(c)).len() == 4);
    assert("COLORTERM"@.map_values(|c: char| lower(c)).len() == 9);
    assert(apart("TERM"@, "COLORTERM"@));
    assert(stands(all, n - 2, n));
    assert(stands(all, n - 1, n));
}

// ---------------------------------------------------------------------------
// What is read

/// What came of one read from the terminal.
#[derive(Debug)]
pub enum ReadOutcome {
    /// Nothing will come any more.
    End,
    /// These bytes came.
    Data(Vec<u8>),
    /// The read failed; why, in words.
    Failed(String),
}

/// Whether an event is what one read from the terminal gives.
pub open spec fn read_gives(outcome: ReadOutcome, event: PtyEvent) -> bool {
    match outcome {
        ReadOutcome::End => event matches PtyEvent::Exited(why) && why@ == "eof"@,
        ReadOutcome::Data(bytes) => event == PtyEvent::Bytes(bytes),
        ReadOutcome::Failed(e) => event matches PtyEvent::Exited(why) && why@
            == "read error: "@ + e@,
    }
}

/// The event of one read from the terminal, and whether to read on after it was
/// taken, or no one took it.
pub fn reader_step(outcome: ReadOutcome, taken: bool) -> (r: (PtyEvent, bool))
    ensures
        read_gives(outcome, r.0),
        r.1 == (outcome is Data && taken),
{
    match outcome {
        ReadOutcome::End => (PtyEvent::Exited("eof".to_owned()), false),
        ReadOutcome::Data(bytes) => (PtyEvent::Bytes(bytes), taken),
        ReadOutcome::Failed(e) => {
            let mut why = "read error: ".to_owned();
            why.push_str(e.as_str());
            (PtyEvent::Exited(why), false)
        },
    }
}

/// The reads that are made of those that could be: up to the first that ends it.
pub open spec fn reads_made(outcomes: Seq<ReadOutcome>) -> Seq<ReadOutcome>
    decreases outcomes.len(),
{
    if outcomes.len() == 0 {
        Seq::empty()
    } else if outcomes[0] is Data {
        seq![outcomes[0]] + reads_made(outcomes.skip(1))
    } else {
        seq![outcomes[0]]
    }
}

/// A child is said to be gone once at most, and nothing is read after that.
pub proof fn law_exit_is_last(outcomes: Seq<ReadOutcome>, i: int)
    requires
        0 <= i < reads_made(outcomes).len(),
        !(reads_made(outcomes)[i] is Data),
    ensures
        i == reads_made(outcomes).len() - 1,
    decreases outcomes.len(),
{
    if outcomes[0] is Data {
        law_exit_is_last(outcomes.skip(1), i - 1);
    }
}

/// What came of one read of a child's errors.
#[derive(Debug)]
pub enum StderrRead {
    End,
    Data(Vec<u8>),
    /// There is nothing to read at the moment.
    WouldBlock,
    /// A signal came in between.
    Interrupted,
    Failed,
}

/// What the reader of a child's errors does next.
#[derive(Debug)]
pub enum StderrStep {
    /// Hand on these bytes; stop if no one takes them.
    Send(PtyEvent),
    /// Sleep for so many milliseconds, then read again.
    Sleep(u64),
    /// Read again.
    Again,
    Stop,
}

/// What follows a read of a child's errors.
pub open spec fn stderr_next(read: StderrRead) -> StderrStep {
    match read {
        StderrRead::End => StderrStep::Stop,
        StderrRead::Data(bytes) => StderrStep::Send(PtyEvent::Stderr(bytes)),
        StderrRead::WouldBlock => StderrStep::Sleep(STDERR_POLL_MS),
        StderrRead::Interrupted => StderrStep::Again,
        StderrRead::Failed => StderrStep::Stop,
    }
}

/// Decide what follows a read of a child's errors.
pub fn stderr_step(read: StderrRead) -> (r: StderrStep)
    ensures
        r == stderr_next(read),
{
    match read {
        StderrRead::End => StderrStep::Stop,
        StderrRead::Data(bytes) => StderrStep::Send(PtyEvent::Stderr(bytes)),
        StderrRead::WouldBlock => StderrStep::Sleep(STDERR_POLL_MS),
        StderrRead::Interrupted => StderrStep::Again,
        StderrRead::Failed => StderrStep::Stop,
    }
}

// ---------------------------------------------------------------------------
// The way for errors

/// The name of the pipe for a child's errors.
pub open spec fn fifo_text(pid: u32, seq: u64) -> Seq<char> {
    "sshub-stderr-"@ + decimal(pid as nat) + "-"@ + decimal(seq as nat) + ".fifo"@
}

/// The name of the pipe for the errors of this process's next child.
pub fn fifo_name(pid: u32, seq: u64) -> (r: String)
    ensures
        r@ == fifo_text(pid, seq),
{
    let mut r = "sshub-stderr-".to_owned();
    r.push_str(format_u64(pid as u64).as_str());
    r.push_str("-");
    r.push_str(format_u64(seq).as_str());
    r.push_str(".fifo");
    r
}

/// Two children of running processes never share a pipe.
pub proof fn law_fifo_names_distinct(pid1: u32, seq1: u64, pid2: u32, seq2: u64)
    ensures
        fifo_text(pid1, seq1) == fifo_text(pid2, seq2) ==> pid1 == pid2 && seq1 == seq2,
{
    if fifo_text(pid1, seq1) == fifo_text(pid2, seq2) {
        let a = decimal(pid1 as nat);
        let b = decimal(pid2 as nat);
        let c = decimal(seq1 as nat);
        let d = decimal(seq2 as nat);
        reveal_strlit("-");
        reveal_strlit("sshub-stderr-");
        reveal_strlit(".fifo");
        crate::text::lemma_decimal_digits(pid1 as nat);
        crate::text::lemma_decimal_digits(pid2 as nat);
        crate::text::lemma_decimal_digits(seq1 as nat);
        crate::text::lemma_decimal_digits(seq2 as nat);
        let head = "sshub-stderr-"@;
        let tail = ".fifo"@;
        let s = fifo_text(pid1, seq1);
        let t = fifo_text(pid2, seq2);
        let n = head.len() as int;
        assert(s[n + a.len()] == '-');
        assert(t[n + b.len()] == '-');
        if a.len() < b.len() {
            assert(t[n + a.len()] == b[a.len() as int]);
            assert(crate::text::is_digit(b[a.len() as int]));
        }
        if b.len() < a.len() {
            assert(s[n + b.len()] == a[b.len() as int]);
            assert(crate::text::is_digit(a[b.len() as int]));
        }
        assert(a.len() == b.len());
        assert(s.subrange(n, n + a.len()) =~= a);
        assert(t.subrange(n, n + a.len()) =~= b);
        crate::text::lemma_decimal_injective(pid1 as nat, pid2 as nat);
        let m = n + a.len() + 1;
        assert(s.len() == m + c.len() + tail.len());
        assert(t.len() == m + d.len() + tail.len());
        assert(s.subrange(m, m + c.len()) =~= c);
        assert(t.subrange(m, m + c.len()) =~= d);
        crate::text::lemma_decimal_injective(seq1 as nat, seq2 as nat);
    }
}

// ---------------------------------------------------------------------------
// The end

/// A step in ending a child.
#[derive(Debug, Clone, Copy, PartialEq, Eq, Structural)]
pub enum EndStep {
    /// Tell the child and its helpers that the terminal hung up.
    HangUpGroup(u32),
    /// Tell the child and its helpers to terminate.
    TerminateGroup(u32),
    /// Give them so many milliseconds.
    Sleep(u64),
    /// Kill the child.
    Kill,
    /// Wait for the child, so that nothing is left of it.
    Wait,
}

/// The steps that end a child. Where its process is known and the platform has
/// signals, it and its helpers are asked to go first.
pub open spec fn ending(pid: Option<u32>, unix: bool) -> Seq<EndStep> {
    if unix && pid is Some {
        seq![
            EndStep::HangUpGroup(pid->0),
            EndStep::Sleep(50),
            EndStep::TerminateGroup(pid->0),
            EndStep::Sleep(100),
            EndStep::Kill,
            EndStep::Wait,
        ]
    } else {
        seq![EndStep::Kill, EndStep::Wait]
    }
}

/// Lay out the steps that end a child.
pub fn end_steps(pid: Option<u32>, unix: bool) -> (r: Vec<EndStep>)
    ensures
        r@ == ending(pid, unix),
{
    let mut r: Vec<EndStep> = Vec::new();
    if unix {
        if let Some(p) = pid {
            r.push(EndStep::HangUpGroup(p));
            r.push(EndStep::Sleep(50));
            r.push(EndStep::TerminateGroup(p));
            r.push(EndStep::Sleep(100));
        }
    }
    r.push(EndStep::Kill);
    r.push(EndStep::Wait);
    assert(r@ =~= ending(pid, unix));
    r
}

/// However a child is ended, it is killed and waited for in the end.
pub proof fn law_child_is_reaped(pid: Option<u32>, unix: bool)
    ensures
        ending(pid, unix).len() >= 2,
        ending(pid, unix).last() == EndStep::Wait,
        ending(pid, unix)[ending(pid, unix).len() - 2] == EndStep::Kill,
{
}

/// A child runs the command that it is given: itself, or through a shell that redirects
/// its errors and then becomes it, with all its arguments behind.
pub proof fn law_child_runs_the_command(argv: Seq<Seq<char>>, fifo: Option<Seq<char>>)
    requires
        argv.len() > 0,
    ensures
        ({
            let (program, args) = child_command(argv, fifo);
            &&& (fifo is None ==> seq![program] + args == argv)
            &&& (fifo is Some ==> program == "/bin/sh"@ && args.len() == argv.len() + 3 && args[0]
                == "-c"@ && args[1] == "exec \"$@\" 2>\"$SSHUB_STDERR_FIFO\""@ && args[2]
                == "sshub"@ && args.skip(3) == argv)
        }),
{
    let (program, args) = child_command(argv, fifo);
    if fifo is None {
        assert(seq![program] + args =~= argv);
    } else {
        assert(args.skip(3) =~= argv);
    }
}

/// A child gets every variable that is asked for, in their order, then the way for its
/// errors where there is one, and the kind of terminal; nothing else is set.
pub proof fn law_child_gets_its_variables(
    env: Seq<(Seq<char>, Seq<char>)>,
    fifo: Option<Seq<char>>,
)
    ensures
        ({
            let all = child_env(env, fifo);
            &&& all.take(env.len() as int) == env
            &&& (fifo is Some ==> all.len() == env.len() + 3 && all[env.len() as int] == (
                "SSHUB_STDERR_FIFO"@,
                fifo->0,
            ))
            &&& (fifo is None ==> all.len() == env.len() + 2)
            &&& all[all.len() - 2] == ("TERM"@, "xterm-256color"@)
            &&& all[all.len() - 1] == ("COLORTERM"@, "truecolor"@)
        }),
{
    assert(child_env(env, fifo).take(env.len() as int) =~= env);
}

/// What is read is handed on as it is; a child is said to be gone exactly where nothing
/// more can be read, and why.
pub proof fn law_reads_are_handed_on(outcome: ReadOutcome, event: PtyEvent)
    requires
        read_gives(outcome, event),
    ensures
        outcome is Data ==> event is Bytes && event->Bytes_0@ == outcome->Data_0@,
        event is Exited <==> outcome is End || outcome is Failed,
        outcome is End ==> event->Exited_0@ == "eof"@,
        outcome is Failed ==> event->Exited_0@ == "read error: "@ + outcome->Failed_0@,
        !(event is Stderr),
{
}

/// Errors are handed on as they are and apart from the terminal; the reader goes on
/// after a pause where there are none yet, at once after a signal, and stops at the end
/// or where it fails.
pub proof fn law_errors_are_handed_on(read: StderrRead)
    ensures
        read is Data ==> stderr_next(read) is Send && stderr_next(read)->Send_0 is Stderr
            && stderr_next(read)->Send_0->Stderr_0@ == read->Data_0@,
        stderr_next(read) is Stop <==> read is End || read is Failed,
        read is WouldBlock ==> stderr_next(read) == StderrStep::Sleep(20),
        read is Interrupted ==> stderr_next(read) is Again,
{
}

/// The pipe's name shows the process and the number of the child.
pub proof fn law_fifo_name_shape(pid: u32, seq: u64)
    ensures
        fifo_text(pid, seq) == "sshub-stderr-"@ + decimal(pid as nat) + "-"@ + decimal(seq as nat)
            + ".fifo"@,
        STDERR_FIFO_ENV@ == "SSHUB_STDERR_FIFO"@,
        READ_BUF == 4096,
{
}

/// A child whose process is known is asked to go before it is killed, where the platform
/// has signals: it is told of the hang-up, then to terminate, with time after each, and
/// the signals go to its own group.
pub proof fn law_child_is_asked_first(pid: Option<u32>, unix: bool)
    ensures
        ({
            let steps = ending(pid, unix);
            &&& (unix && pid is Some ==> steps.len() == 6 && steps[0] == EndStep::HangUpGroup(
                pid->0,
            ) && steps[1] == EndStep::Sleep(50) && steps[2] == EndStep::TerminateGroup(pid->0)
                && steps[3] == EndStep::Sleep(100))
            &&& (!unix || pid is None ==> steps.len() == 2)
        }),
{
}

/// The variables are read one by one: the name, and the value.
pub proof fn law_pairs_are_read_as_they_are(v: Seq<(String, String)>, i: int)
    ensures
        text_pairs(v).len() == v.len(),
        0 <= i < v.len() ==> text_pairs(v)[i].0 == v[i].0@ && text_pairs(v)[i].1 == v[i].1@,
{
}

} // verus!
