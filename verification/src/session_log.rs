//! Transcripts of terminal sessions: where they go, how their files are named,
//! when a file is full and which old files are removed.
//!
//! The files themselves are opened, written and removed by the caller.

use vstd::prelude::*;

use crate::config::paths::{JoinedPath, PathView};
use crate::text::{
    chars_of, format_i64, format_u64, text_of, trim_text,
};

pub mod script;
pub mod writer;

verus! {

// ---------------------------------------------------------------------------
// Per-host override

/// Per-host override for session logging (tri-state).
#[derive(Debug, Clone, Copy, PartialEq, Eq, Structural)]
pub enum SessionLoggingOverride {
    Inherit,
    On,
    Off,
}

impl Default for SessionLoggingOverride {
    fn default() -> (r: Self)
        ensures
            r == SessionLoggingOverride::Inherit,
    {
        SessionLoggingOverride::Inherit
    }
}

impl SessionLoggingOverride {
    /// The word for a setting.
    pub open spec fn label_text(self) -> Seq<char> {
        match self {
            SessionLoggingOverride::Inherit => "inherit"@,
            SessionLoggingOverride::On => "on"@,
            SessionLoggingOverride::Off => "off"@,
        }
    }

    /// The setting that follows when a user cycles through them.
    pub open spec fn following(self) -> Self {
        match self {
            SessionLoggingOverride::Inherit => SessionLoggingOverride::On,
            SessionLoggingOverride::On => SessionLoggingOverride::Off,
            SessionLoggingOverride::Off => SessionLoggingOverride::Inherit,
        }
    }

    /// The setting that a stored number stands for; an unknown one inherits.
    pub open spec fn of_stored(value: Option<i64>) -> Self {
        if value == Some(0i64) {
            SessionLoggingOverride::Off
        } else if value == Some(1i64) {
            SessionLoggingOverride::On
        } else {
            SessionLoggingOverride::Inherit
        }
    }

    /// The number under which a setting is stored.
    pub open spec fn stored(self) -> Option<i64> {
        match self {
            SessionLoggingOverride::Inherit => None,
            SessionLoggingOverride::On => Some(1i64),
            SessionLoggingOverride::Off => Some(0i64),
        }
    }

    pub fn label(self) -> (r: &'static str)
        ensures
            r@ == self.label_text(),
    {
        match self {
            SessionLoggingOverride::Inherit => "inherit",
            SessionLoggingOverride::On => "on",
            SessionLoggingOverride::Off => "off",
        }
    }

    pub fn next(self) -> (r: Self)
        ensures
            r == self.following(),
    {
        match self {
            SessionLoggingOverride::Inherit => SessionLoggingOverride::On,
            SessionLoggingOverride::On => SessionLoggingOverride::Off,
            SessionLoggingOverride::Off => SessionLoggingOverride::Inherit,
        }
    }

    pub fn from_db(value: Option<i64>) -> (r: Self)
        ensures
            r == Self::of_stored(value),
    {
        match value {
            None => SessionLoggingOverride::Inherit,
            Some(n) => if n == 0 {
                SessionLoggingOverride::Off
            } else if n == 1 {
                SessionLoggingOverride::On
            } else {
                SessionLoggingOverride::Inherit
            },
        }
    }

    pub fn to_db(self) -> (r: Option<i64>)
        ensures
            r == self.stored(),
    {
        match self {
            SessionLoggingOverride::Inherit => None,
            SessionLoggingOverride::On => Some(1),
            SessionLoggingOverride::Off => Some(0),
        }
    }
}

/// What was stored is what is read back.
pub proof fn law_override_round_trip(o: SessionLoggingOverride)
    ensures
        SessionLoggingOverride::of_stored(o.stored()) == o,
{
}

/// Cycling three times returns to the start and passes every setting.
pub proof fn law_override_cycle(o: SessionLoggingOverride, p: SessionLoggingOverride)
    ensures
        o.following().following().following() == o,
        p == o || p == o.following() || p == o.following().following(),
{
}

/// Whether a host's sessions are logged, given the global setting.
pub open spec fn logging_active(global: bool, host_override: SessionLoggingOverride) -> bool {
    match host_override {
        SessionLoggingOverride::Inherit => global,
        SessionLoggingOverride::On => true,
        SessionLoggingOverride::Off => false,
    }
}

/// Resolve whether logging is active for a connect attempt.
pub fn effective_enabled(global: bool, host_override: SessionLoggingOverride) -> (r: bool)
    ensures
        r == logging_active(global, host_override),
{
    match host_override {
        SessionLoggingOverride::Inherit => global,
        SessionLoggingOverride::On => true,
        SessionLoggingOverride::Off => false,
    }
}

// ---------------------------------------------------------------------------
// Directory names

/// ASCII letters and digits.
pub open spec fn is_alphanumeric(c: char) -> bool {
    'a' <= c <= 'z' || 'A' <= c <= 'Z' || '0' <= c <= '9'
}

/// The characters that a directory name keeps.
pub open spec fn is_dir_char(c: char) -> bool {
    is_alphanumeric(c) || c == '-' || c == '_' || c == '.'
}

fn char_is_alphanumeric(c: char) -> (r: bool)
    ensures
        r == is_alphanumeric(c),
{
    ('a' <= c && c <= 'z') || ('A' <= c && c <= 'Z') || ('0' <= c && c <= '9')
}

/// Every character that is not kept becomes an underscore.
pub open spec fn with_safe_chars(s: Seq<char>) -> Seq<char> {
    s.map_values(
        |c: char|
            if is_dir_char(c) {
                c
            } else {
                '_'
            },
    )
}

/// The directory name for a host name: trimmed, with unsafe characters
/// replaced; `_unknown` where nothing is left or where it would be `.` or `..`.
pub open spec fn host_dir_text(name: Seq<char>) -> Seq<char> {
    let safe = with_safe_chars(crate::text::trimmed(name));
    if safe.len() == 0 || safe == "."@ || safe == ".."@ {
        "_unknown"@
    } else {
        safe
    }
}

/// The log directory of a host: a host with an id has it at the end.
pub open spec fn log_dir_text(name: Seq<char>, id: Option<i64>) -> Seq<char> {
    match id {
        Some(n) => host_dir_text(name) + seq!['-'] + crate::text::decimal_int(n as int),
        None => host_dir_text(name),
    }
}

/// Sanitize a host name for use as a single path segment.
pub fn sanitize_host_dir(name: &str) -> (r: String)
    ensures
        r@ == host_dir_text(name@),
{
    let trimmed = trim_text(name);
    let v = chars_of(trimmed.as_str());
    let mut out = String::new();
    let mut i: usize = 0;
    while i < v.len()
        invariant
            i <= v@.len(),
            out@ == with_safe_chars(v@).take(i as int),
        decreases v@.len() - i,
    {
        let c = v[i];
        if char_is_alphanumeric(c) || c == '-' || c == '_' || c == '.' {
            out.push(c);
        } else {
            out.push('_');
        }
        i = i + 1;
        assert(out@ =~= with_safe_chars(v@).take(i as int));
    }
    assert(with_safe_chars(v@).take(i as int) =~= with_safe_chars(v@));
    if v.len() == 0 || str::eq(out.as_str(), ".") || str::eq(out.as_str(), "..") {
        "_unknown".to_owned()
    } else {
        out
    }
}

/// Build the per-host log directory segment under `logs/`.
///
/// Managed hosts include a stable id so colliding sanitized names (e.g.
/// `web/prod` and `web_prod`, both `web_prod`) stay in separate directories.
pub fn host_log_dir_name(host_name: &str, host_id: Option<i64>) -> (r: String)
    ensures
        r@ == log_dir_text(host_name@, host_id),
{
    let mut out = sanitize_host_dir(host_name);
    match host_id {
        Some(id) => {
            out.push('-');
            let digits = format_i64(id);
            out.push_str(digits.as_str());
            assert(out@ =~= log_dir_text(host_name@, host_id));
            out
        },
        None => out,
    }
}

/// A sanitized name is one path segment: it is not empty, holds safe characters
/// only and is neither `.` nor `..`.
pub proof fn law_host_dir_is_one_segment(name: Seq<char>)
    ensures
        host_dir_text(name).len() > 0,
        forall|i: int|
            0 <= i < host_dir_text(name).len() ==> is_dir_char(#[trigger] host_dir_text(name)[i]),
        host_dir_text(name) != "."@,
        host_dir_text(name) != ".."@,
{
    reveal_strlit("_unknown");
    reveal_strlit(".");
    reveal_strlit("..");
    assert("_unknown"@.len() == 8);
}

/// Sanitizing a sanitized name changes nothing.
pub proof fn law_sanitize_idempotent(name: Seq<char>)
    ensures
        host_dir_text(host_dir_text(name)) == host_dir_text(name),
{
    law_host_dir_is_one_segment(name);
    let d = host_dir_text(name);
    assert(is_dir_char(d[0]));
    assert(is_dir_char(d[d.len() - 1]));
    crate::text::lemma_trimmed_noop(d);
    assert(with_safe_chars(d) =~= d);
}

/// The part after the last dash of a name that ends in a dash and digits.
proof fn lemma_after_last_dash(p: Seq<char>, a: Seq<char>, q: Seq<char>, b: Seq<char>)
    requires
        crate::text::all_digits(a),
        crate::text::all_digits(b),
        p + seq!['-'] + a == q + seq!['-'] + b,
    ensures
        p == q,
        a == b,
{
    let l = p + seq!['-'] + a;
    let r = q + seq!['-'] + b;
    assert(l.len() == r.len());
    if a.len() < b.len() {
        let k = p.len() as int;
        assert(l[k] == '-');
        assert(r[k] == b[k - q.len() - 1]);
        assert(crate::text::is_digit(b[k - q.len() - 1]));
        assert(false);
    }
    if b.len() < a.len() {
        let k = q.len() as int;
        assert(r[k] == '-');
        assert(l[k] == a[k - p.len() - 1]);
        assert(crate::text::is_digit(a[k - p.len() - 1]));
        assert(false);
    }
    assert(p =~= l.take(p.len() as int));
    assert(q =~= r.take(q.len() as int));
    assert(a =~= l.skip(p.len() as int + 1));
    assert(b =~= r.skip(q.len() as int + 1));
}

/// Hosts with different ids have different log directories, whatever their
/// names. One coincidence is left out: ids that differ in nothing but the sign,
/// with names that differ by a dash at the end (`x` with id -1, `x-` with id 1).
pub proof fn law_managed_log_dirs_distinct(n1: Seq<char>, id1: i64, n2: Seq<char>, id2: i64)
    requires
        id1 != id2,
        id1 == -id2 && id1 < 0 ==> host_dir_text(n1) + seq!['-'] != host_dir_text(n2),
        id1 == -id2 && id2 < 0 ==> host_dir_text(n2) + seq!['-'] != host_dir_text(n1),
    ensures
        log_dir_text(n1, Some(id1)) != log_dir_text(n2, Some(id2)),
{
    if log_dir_text(n1, Some(id1)) == log_dir_text(n2, Some(id2)) {
        let m1 = (if id1 < 0 {
            -(id1 as int)
        } else {
            id1 as int
        }) as nat;
        let m2 = (if id2 < 0 {
            -(id2 as int)
        } else {
            id2 as int
        }) as nat;
        let p1 = if id1 < 0 {
            host_dir_text(n1) + seq!['-']
        } else {
            host_dir_text(n1)
        };
        let p2 = if id2 < 0 {
            host_dir_text(n2) + seq!['-']
        } else {
            host_dir_text(n2)
        };
        assert(log_dir_text(n1, Some(id1)) =~= p1 + seq!['-'] + crate::text::decimal(m1));
        assert(log_dir_text(n2, Some(id2)) =~= p2 + seq!['-'] + crate::text::decimal(m2));
        crate::text::lemma_decimal_digits(m1);
        crate::text::lemma_decimal_digits(m2);
        lemma_after_last_dash(p1, crate::text::decimal(m1), p2, crate::text::decimal(m2));
        crate::text::lemma_decimal_injective(m1, m2);
    }
}

/// The same id keeps hosts apart exactly as their sanitized names do.
pub proof fn law_log_dir_same_id(n1: Seq<char>, n2: Seq<char>, id: Option<i64>)
    ensures
        log_dir_text(n1, id) == log_dir_text(n2, id) <==> host_dir_text(n1) == host_dir_text(n2),
{
    if let Some(n) = id {
        let tail = seq!['-'] + crate::text::decimal_int(n as int);
        let a = log_dir_text(n1, id);
        let b = log_dir_text(n2, id);
        assert(a =~= host_dir_text(n1) + tail);
        assert(b =~= host_dir_text(n2) + tail);
        if a == b {
            assert(host_dir_text(n1) =~= a.take(a.len() - tail.len()));
            assert(host_dir_text(n2) =~= b.take(b.len() - tail.len()));
        }
    }
}

/// The directories that are made for a host's transcripts in the data directory: that of
/// all transcripts, and the host's own in it.
pub fn log_dirs(base: &JoinedPath, host_name: &str, host_id: Option<i64>) -> (r: (
    JoinedPath,
    JoinedPath,
))
    ensures
        r.0@ == base@.with("logs"@),
        r.1@ == log_host_dir(base@, host_name@, host_id),
{
    let all = base.joined("logs");
    let own = all.joined(host_log_dir_name(host_name, host_id).as_str());
    (all, own)
}

// ---------------------------------------------------------------------------
// File names

/// The name of a log file, without its ending, from what makes it unique.
pub open spec fn log_stem(secs: nat, pid: nat, open_id: nat, serial: nat) -> Seq<char> {
    let base = crate::text::decimal(secs) + seq!['-'] + crate::text::decimal(pid) + seq!['-']
        + crate::text::decimal(open_id);
    if serial == 0 {
        base
    } else {
        base + seq!['-'] + crate::text::decimal(serial)
    }
}

/// The name of a log file.
pub open spec fn log_name(secs: nat, pid: nat, open_id: nat, serial: nat) -> Seq<char> {
    log_stem(secs, pid, open_id, serial) + ".log"@
}

/// The name of a fresh log file: the time, the process, a counter that the
/// process advances for every file, and the number of rotations so far.
pub fn unique_log_filename(secs: u64, pid: u32, open_id: u32, serial: u32) -> (r: String)
    ensures
        r@ == log_name(secs as nat, pid as nat, open_id as nat, serial as nat),
{
    let mut out = format_u64(secs);
    out.push('-');
    let pid_text = format_u64(pid as u64);
    out.push_str(pid_text.as_str());
    out.push('-');
    let open_text = format_u64(open_id as u64);
    out.push_str(open_text.as_str());
    if serial != 0 {
        out.push('-');
        let serial_text = format_u64(serial as u64);
        out.push_str(serial_text.as_str());
    }
    assert(out@ =~= log_stem(secs as nat, pid as nat, open_id as nat, serial as nat));
    out.push_str(".log");
    out
}

/// A run of digits ends where the first other character stands.
proof fn lemma_digits_then(a: Seq<char>, x: Seq<char>, b: Seq<char>, y: Seq<char>)
    requires
        crate::text::all_digits(a),
        crate::text::all_digits(b),
        x.len() > 0,
        y.len() > 0,
        !crate::text::is_digit(x[0]),
        !crate::text::is_digit(y[0]),
        a + x == b + y,
    ensures
        a == b,
        x == y,
{
    let l = a + x;
    let r = b + y;
    if a.len() < b.len() {
        let k = a.len() as int;
        assert(l[k] == x[0]);
        assert(r[k] == b[k]);
        assert(false);
    }
    if b.len() < a.len() {
        let k = b.len() as int;
        assert(r[k] == y[0]);
        assert(l[k] == a[k]);
        assert(false);
    }
    assert(a =~= l.take(a.len() as int));
    assert(b =~= r.take(b.len() as int));
    assert(x =~= l.skip(a.len() as int));
    assert(y =~= r.skip(b.len() as int));
}

/// A number ends where the first character that is no digit stands.
proof fn lemma_number_then(a: nat, x: Seq<char>, b: nat, y: Seq<char>)
    requires
        x.len() > 0,
        y.len() > 0,
        !crate::text::is_digit(x[0]),
        !crate::text::is_digit(y[0]),
        crate::text::decimal(a) + x == crate::text::decimal(b) + y,
    ensures
        a == b,
        x == y,
{
    crate::text::lemma_decimal_digits(a);
    crate::text::lemma_decimal_digits(b);
    lemma_digits_then(crate::text::decimal(a), x, crate::text::decimal(b), y);
    crate::text::lemma_decimal_injective(a, b);
}

/// A dash, a number and the rest.
spec fn dashed(n: nat, rest: Seq<char>) -> Seq<char> {
    seq!['-'] + (crate::text::decimal(n) + rest)
}

proof fn lemma_dashed(a: nat, x: Seq<char>, b: nat, y: Seq<char>)
    requires
        x.len() > 0,
        y.len() > 0,
        !crate::text::is_digit(x[0]),
        !crate::text::is_digit(y[0]),
        dashed(a, x) == dashed(b, y),
    ensures
        a == b,
        x == y,
{
    assert(dashed(a, x).skip(1) =~= crate::text::decimal(a) + x);
    assert(dashed(b, y).skip(1) =~= crate::text::decimal(b) + y);
    lemma_number_then(a, x, b, y);
}

/// What follows the counter in a log file name.
spec fn serial_part(serial: nat) -> Seq<char> {
    if serial == 0 {
        ".log"@
    } else {
        dashed(serial, ".log"@)
    }
}

proof fn lemma_log_name_parts(secs: nat, pid: nat, open_id: nat, serial: nat)
    ensures
        log_name(secs, pid, open_id, serial) == crate::text::decimal(secs) + dashed(
            pid,
            dashed(open_id, serial_part(serial)),
        ),
        serial_part(serial).len() > 0,
        !crate::text::is_digit(serial_part(serial)[0]),
{
    reveal_strlit(".log");
    assert(log_name(secs, pid, open_id, serial) =~= crate::text::decimal(secs) + dashed(
        pid,
        dashed(open_id, serial_part(serial)),
    ));
}

/// A log file name tells what it was made from: two opens of one process never
/// share a name, even in the same second.
pub proof fn law_log_names_distinct(
    s1: nat,
    p1: nat,
    o1: nat,
    n1: nat,
    s2: nat,
    p2: nat,
    o2: nat,
    n2: nat,
)
    requires
        log_name(s1, p1, o1, n1) == log_name(s2, p2, o2, n2),
    ensures
        s1 == s2,
        p1 == p2,
        o1 == o2,
        n1 == n2,
{
    lemma_log_name_parts(s1, p1, o1, n1);
    lemma_log_name_parts(s2, p2, o2, n2);
    let u1 = dashed(o1, serial_part(n1));
    let u2 = dashed(o2, serial_part(n2));
    lemma_number_then(s1, dashed(p1, u1), s2, dashed(p2, u2));
    lemma_dashed(p1, u1, p2, u2);
    lemma_dashed(o1, serial_part(n1), o2, serial_part(n2));
    reveal_strlit(".log");
    if n1 != 0 && n2 != 0 {
        lemma_dashed(n1, ".log"@, n2, ".log"@);
    }
    assert(serial_part(n1)[0] == serial_part(n2)[0]);
}

/// The text without every `.log` at its end.
pub open spec fn without_log_endings(s: Seq<char>) -> Seq<char>
    decreases s.len(),
{
    if s.len() >= 4 && s.skip(s.len() - 4) == ".log"@ {
        without_log_endings(s.take(s.len() - 4))
    } else {
        s
    }
}

/// The name tried at the given attempt: the base name first, then the base name
/// with the number of the attempt in front of the ending.
pub open spec fn log_attempt_name(base: Seq<char>, attempt: nat) -> Seq<char> {
    if attempt == 0 {
        base
    } else {
        without_log_endings(base) + seq!['-'] + crate::text::decimal(attempt) + ".log"@
    }
}

/// How many names are tried before giving up.
pub const LOG_NAME_ATTEMPTS: u32 = 100;

/// The name to try at an attempt to create a log file.
pub fn log_candidate(base: &str, attempt: u32) -> (r: String)
    ensures
        r@ == log_attempt_name(base@, attempt as nat),
{
    if attempt == 0 {
        return base.to_owned();
    }
    let v = chars_of(base);
    let mut end: usize = v.len();
    proof {
        reveal_strlit(".log");
        assert(v@.take(end as int) =~= base@);
    }
    while end >= 4 && v[end - 4] == '.' && v[end - 3] == 'l' && v[end - 2] == 'o' && v[end - 1]
        == 'g'
        invariant
            end <= v@.len(),
            without_log_endings(v@.take(end as int)) == without_log_endings(base@),
        decreases end,
    {
        proof {
            reveal_strlit(".log");
            let t = v@.take(end as int);
            assert(t.skip(t.len() - 4) =~= ".log"@);
            assert(t.take(t.len() - 4) =~= v@.take(end - 4));
        }
        end = end - 4;
    }
    proof {
        reveal_strlit(".log");
        let t = v@.take(end as int);
        if t.len() >= 4 && t.skip(t.len() - 4) == ".log"@ {
            let tail = t.skip(t.len() - 4);
            assert(tail[0] == v@[end - 4] && tail[1] == v@[end - 3] && tail[2] == v@[end - 2]
                && tail[3] == v@[end - 1]);
        }
        assert(without_log_endings(t) == t);
    }
    let mut out = text_of(&v, 0, end);
    out.push('-');
    let digits = format_u64(attempt as u64);
    out.push_str(digits.as_str());
    out.push_str(".log");
    assert(out@ =~= log_attempt_name(base@, attempt as nat));
    out
}

/// What is cut off the end of a name starts with a dot.
proof fn lemma_log_endings(s: Seq<char>)
    ensures
        without_log_endings(s).len() <= s.len(),
        s.take(without_log_endings(s).len() as int) == without_log_endings(s),
        without_log_endings(s).len() < s.len() ==> s[without_log_endings(s).len() as int] == '.',
    decreases s.len(),
{
    reveal_strlit(".log");
    if s.len() >= 4 && s.skip(s.len() - 4) == ".log"@ {
        let t = s.take(s.len() - 4);
        lemma_log_endings(t);
        assert(s.skip(s.len() - 4)[0] == '.');
        assert(s.take(without_log_endings(s).len() as int) =~= t.take(
            without_log_endings(t).len() as int,
        ));
    } else {
        assert(s.take(s.len() as int) =~= s);
    }
}

/// Every attempt at one base name tries another name.
pub proof fn law_log_attempts_distinct(base: Seq<char>, a: nat, b: nat)
    requires
        a != b,
    ensures
        log_attempt_name(base, a) != log_attempt_name(base, b),
{
    reveal_strlit(".log");
    lemma_log_endings(base);
    let n = without_log_endings(base).len() as int;
    if log_attempt_name(base, a) == log_attempt_name(base, b) {
        let l = log_attempt_name(base, a);
        let r = log_attempt_name(base, b);
        if a == 0 {
            assert(r[n] == '-');
        } else if b == 0 {
            assert(l[n] == '-');
        } else {
            crate::text::lemma_decimal_digits(a);
            crate::text::lemma_decimal_digits(b);
            assert(l.skip(n + 1) =~= crate::text::decimal(a) + ".log"@);
            assert(r.skip(n + 1) =~= crate::text::decimal(b) + ".log"@);
            lemma_digits_then(crate::text::decimal(a), ".log"@, crate::text::decimal(b), ".log"@);
            crate::text::lemma_decimal_injective(a, b);
        }
    }
}

/// What follows the counter in the name of any attempt.
spec fn attempt_part(serial: nat, attempt: nat) -> Seq<char> {
    if attempt == 0 {
        serial_part(serial)
    } else if serial == 0 {
        dashed(attempt, ".log"@)
    } else {
        dashed(serial, dashed(attempt, ".log"@))
    }
}

/// The number at the end of a stem is followed by its only ending.
proof fn lemma_stem_kept(secs: nat, pid: nat, open_id: nat, serial: nat)
    ensures
        without_log_endings(log_name(secs, pid, open_id, serial)) == log_stem(
            secs,
            pid,
            open_id,
            serial,
        ),
{
    reveal_strlit(".log");
    let name = log_name(secs, pid, open_id, serial);
    let stem = log_stem(secs, pid, open_id, serial);
    assert(name.skip(name.len() - 4) =~= ".log"@);
    assert(name.take(name.len() - 4) =~= stem);
    let number = crate::text::decimal(
        if serial == 0 {
            open_id
        } else {
            serial
        },
    );
    crate::text::lemma_decimal_digits(open_id);
    crate::text::lemma_decimal_digits(serial);
    assert(stem.last() == number[number.len() - 1]);
    if stem.len() >= 4 && stem.skip(stem.len() - 4) == ".log"@ {
        assert(stem.skip(stem.len() - 4)[3] == stem.last());
    }
    assert(without_log_endings(stem) == stem);
}

/// Three numbers with dashes between them, and the rest.
proof fn lemma_three_parts(a: Seq<char>, b: nat, c: nat, rest: Seq<char>)
    ensures
        (a + seq!['-'] + crate::text::decimal(b) + seq!['-'] + crate::text::decimal(c)) + rest
            == a + dashed(b, dashed(c, rest)),
{
    assert((a + seq!['-'] + crate::text::decimal(b) + seq!['-'] + crate::text::decimal(c)) + rest
        =~= a + dashed(b, dashed(c, rest)));
}

proof fn lemma_attempt_parts(secs: nat, pid: nat, open_id: nat, serial: nat, attempt: nat)
    ensures
        log_attempt_name(log_name(secs, pid, open_id, serial), attempt) == crate::text::decimal(
            secs,
        ) + dashed(pid, dashed(open_id, attempt_part(serial, attempt))),
        attempt_part(serial, attempt).len() > 0,
        !crate::text::is_digit(attempt_part(serial, attempt)[0]),
{
    lemma_log_name_parts(secs, pid, open_id, serial);
    if attempt > 0 {
        lemma_stem_kept(secs, pid, open_id, serial);
        let base = log_stem(secs, pid, open_id, 0);
        let number = crate::text::decimal(attempt);
        let name = log_attempt_name(log_name(secs, pid, open_id, serial), attempt);
        lemma_three_parts(
            crate::text::decimal(secs),
            pid,
            open_id,
            attempt_part(serial, attempt),
        );
        if serial == 0 {
            assert(base + seq!['-'] + number + ".log"@ =~= base + dashed(attempt, ".log"@));
        } else {
            let other = crate::text::decimal(serial);
            assert(base + seq!['-'] + other + seq!['-'] + number + ".log"@ =~= base + dashed(
                serial,
                dashed(attempt, ".log"@),
            ));
        }
        assert(name == base + attempt_part(serial, attempt));
    }
}

/// Two opens never share a file, even in the same second and whichever attempts they
/// end on: they are of different processes, or the process's counter has moved on.
pub proof fn law_opens_never_share_a_name(
    s1: nat,
    p1: nat,
    o1: nat,
    n1: nat,
    a1: nat,
    s2: nat,
    p2: nat,
    o2: nat,
    n2: nat,
    a2: nat,
)
    requires
        p1 != p2 || o1 != o2,
    ensures
        log_attempt_name(log_name(s1, p1, o1, n1), a1) != log_attempt_name(
            log_name(s2, p2, o2, n2),
            a2,
        ),
{
    lemma_attempt_parts(s1, p1, o1, n1, a1);
    lemma_attempt_parts(s2, p2, o2, n2, a2);
    let t1 = attempt_part(n1, a1);
    let t2 = attempt_part(n2, a2);
    if log_attempt_name(log_name(s1, p1, o1, n1), a1) == log_attempt_name(
        log_name(s2, p2, o2, n2),
        a2,
    ) {
        lemma_number_then(s1, dashed(p1, dashed(o1, t1)), s2, dashed(p2, dashed(o2, t2)));
        lemma_dashed(p1, dashed(o1, t1), p2, dashed(o2, t2));
        lemma_dashed(o1, t1, o2, t2);
    }
}

/// The directory of a host's transcripts in the data directory.
pub open spec fn log_host_dir(
    base: PathView,
    host_name: Seq<char>,
    host_id: Option<i64>,
) -> PathView {
    base.with("logs"@).with(log_dir_text(host_name, host_id))
}

/// The path of a file in the directory of a host's transcripts.
pub open spec fn log_path(
    base: PathView,
    host_name: Seq<char>,
    host_id: Option<i64>,
    file: Seq<char>,
) -> PathView {
    log_host_dir(base, host_name, host_id).with(file)
}

/// Two opens of one process never write to one path, whichever hosts they are for and
/// even in the same second.
pub proof fn law_opens_write_apart(
    base: PathView,
    h1: Seq<char>,
    id1: Option<i64>,
    h2: Seq<char>,
    id2: Option<i64>,
    pid: nat,
    s1: nat,
    o1: nat,
    n1: nat,
    a1: nat,
    s2: nat,
    o2: nat,
    n2: nat,
    a2: nat,
)
    requires
        o1 != o2,
    ensures
        log_path(base, h1, id1, log_attempt_name(log_name(s1, pid, o1, n1), a1)) != log_path(
            base,
            h2,
            id2,
            log_attempt_name(log_name(s2, pid, o2, n2), a2),
        ),
{
    let f1 = log_attempt_name(log_name(s1, pid, o1, n1), a1);
    let f2 = log_attempt_name(log_name(s2, pid, o2, n2), a2);
    law_opens_never_share_a_name(s1, pid, o1, n1, a1, s2, pid, o2, n2, a2);
    assert(log_path(base, h1, id1, f1).parts.last() == f1);
    assert(log_path(base, h2, id2, f2).parts.last() == f2);
}

/// Hosts with different ids have different directories, with the coincidence left out
/// that [`law_managed_log_dirs_distinct`] names.
pub proof fn law_managed_hosts_write_apart(
    base: PathView,
    n1: Seq<char>,
    id1: i64,
    n2: Seq<char>,
    id2: i64,
)
    requires
        id1 != id2,
        id1 == -id2 && id1 < 0 ==> host_dir_text(n1) + seq!['-'] != host_dir_text(n2),
        id1 == -id2 && id2 < 0 ==> host_dir_text(n2) + seq!['-'] != host_dir_text(n1),
    ensures
        log_host_dir(base, n1, Some(id1)) != log_host_dir(base, n2, Some(id2)),
{
    law_managed_log_dirs_distinct(n1, id1, n2, id2);
    assert(log_host_dir(base, n1, Some(id1)).parts.last() == log_dir_text(n1, Some(id1)));
    assert(log_host_dir(base, n2, Some(id2)).parts.last() == log_dir_text(n2, Some(id2)));
}

/// What came of an attempt to create a file that must not exist yet.
#[derive(Debug, Clone, Copy, PartialEq, Eq, Structural)]
pub enum CreateOutcome {
    Created,
    AlreadyExists,
    Failed,
}

/// What to do after an attempt to create a log file.
#[derive(Debug, Clone, Copy, PartialEq, Eq, Structural)]
pub enum CreateStep {
    /// The file is there: use it.
    Use,
    /// Try the name of this attempt.
    Retry(u32),
    /// Report the error.
    Fail,
    /// Every name was taken.
    GiveUp,
}

/// A name that is taken leads to the next attempt, as long as there is one; any
/// other error ends the search.
pub fn after_create_attempt(attempt: u32, outcome: CreateOutcome) -> (r: CreateStep)
    ensures
        r == (match outcome {
            CreateOutcome::Created => CreateStep::Use,
            CreateOutcome::Failed => CreateStep::Fail,
            CreateOutcome::AlreadyExists => if attempt + 1 < LOG_NAME_ATTEMPTS {
                CreateStep::Retry((attempt + 1) as u32)
            } else {
                CreateStep::GiveUp
            },
        }),
{
    match outcome {
        CreateOutcome::Created => CreateStep::Use,
        CreateOutcome::Failed => CreateStep::Fail,
        CreateOutcome::AlreadyExists => if attempt < LOG_NAME_ATTEMPTS - 1 {
            CreateStep::Retry(attempt + 1)
        } else {
            CreateStep::GiveUp
        },
    }
}

/// What is said where every name in a host's directory was taken.
pub fn names_taken_message(host_dir: &str) -> (r: String)
    ensures
        r@ == "could not allocate unique session log filename in "@ + host_dir@,
{
    let mut text = "could not allocate unique session log filename in ".to_owned();
    text.push_str(host_dir);
    text
}

/// Logging is on where the host says so, off where it says so, and as the global setting
/// has it where the host says nothing.
pub proof fn law_host_overrides_logging(global: bool)
    ensures
        logging_active(global, SessionLoggingOverride::On),
        !logging_active(global, SessionLoggingOverride::Off),
        logging_active(global, SessionLoggingOverride::Inherit) == global,
{
}

/// What the stored numbers mean: one is on, zero is off, and anything else inherits; what
/// inherits is stored as nothing. Cycling goes from inheriting to on to off.
pub proof fn law_stored_settings(value: Option<i64>)
    ensures
        SessionLoggingOverride::of_stored(value) == SessionLoggingOverride::On <==> value
            == Some(1i64),
        SessionLoggingOverride::of_stored(value) == SessionLoggingOverride::Off <==> value
            == Some(0i64),
        SessionLoggingOverride::Inherit.stored() is None,
        SessionLoggingOverride::Inherit.following() == SessionLoggingOverride::On,
        SessionLoggingOverride::On.following() == SessionLoggingOverride::Off,
{
}

/// The characters that a directory name keeps are the ASCII letters and digits, the dash,
/// the underscore and the dot.
pub proof fn law_kept_characters(c: char)
    ensures
        ({
            let n = c as u32;
            is_dir_char(c) <==> 48 <= n <= 57 || 65 <= n <= 90 || 97 <= n <= 122 || n == 45 || n
                == 95 || n == 46
        }),
{
}

/// A directory name follows the host's name character by character: what it may hold
/// stays, and anything else becomes an underscore. Only a name of which nothing is left,
/// or that would be the directory itself or the one above it, becomes `_unknown`.
pub proof fn law_directory_name_follows_the_host(name: Seq<char>)
    ensures
        ({
            let t = crate::text::trimmed(name);
            let d = host_dir_text(name);
            let lost = t.len() == 0 || t == "."@ || t == ".."@;
            &&& (lost ==> d == "_unknown"@)
            &&& (!lost ==> d.len() == t.len() && forall|i: int|
                0 <= i < t.len() ==> #[trigger] d[i] == (if is_dir_char(t[i]) {
                    t[i]
                } else {
                    '_'
                }))
        }),
{
    let t = crate::text::trimmed(name);
    let safe = with_safe_chars(t);
    reveal_strlit(".");
    reveal_strlit("..");
    assert(safe.len() == t.len());
    assert forall|i: int| 0 <= i < t.len() implies #[trigger] safe[i] == (if is_dir_char(t[i]) {
        t[i]
    } else {
        '_'
    }) by {}
    if safe == "."@ {
        assert("."@.len() == 1);
        assert(safe[0] == '.');
        assert(t =~= "."@);
    }
    if safe == ".."@ {
        assert(".."@.len() == 2);
        assert(safe[0] == '.' && safe[1] == '.');
        assert(t =~= ".."@);
    }
    if t == "."@ {
        assert(safe =~= "."@);
    }
    if t == ".."@ {
        assert(safe =~= ".."@);
    }
}

/// A log directory is the directory name, with the id at its end where the host has one;
/// it stands in the directory of all logs, and a log in it.
pub proof fn law_log_dir_shape(
    base: PathView,
    name: Seq<char>,
    id: Option<i64>,
    file: Seq<char>,
)
    ensures
        id is None ==> log_dir_text(name, id) == host_dir_text(name),
        id is Some ==> log_dir_text(name, id) == host_dir_text(name) + "-"@
            + crate::text::decimal_int(id->0 as int),
        log_host_dir(base, name, id).base == base.base,
        log_host_dir(base, name, id).parts == base.parts + seq!["logs"@, log_dir_text(name, id)],
        log_path(base, name, id, file).base == base.base,
        log_path(base, name, id, file).parts == base.parts + seq![
            "logs"@,
            log_dir_text(name, id),
            file,
        ],
{
    reveal_strlit("-");
    assert("-"@ =~= seq!['-']);
    assert(log_host_dir(base, name, id).parts =~= base.parts + seq![
        "logs"@,
        log_dir_text(name, id),
    ]);
    assert(log_path(base, name, id, file).parts =~= base.parts + seq![
        "logs"@,
        log_dir_text(name, id),
        file,
    ]);
}

/// The name of a log: the time, the process, the number of the open and, after a
/// rotation, the number of the file, with dashes between them; and the ending by which
/// retention knows it.
pub proof fn law_log_name_shape(secs: nat, pid: nat, open_id: nat, serial: nat)
    ensures
        ({
            let d = |n: nat| crate::text::decimal(n);
            let first = d(secs) + "-"@ + d(pid) + "-"@ + d(open_id);
            &&& log_name(secs, pid, open_id, 0) == first + ".log"@
            &&& (serial > 0 ==> log_name(secs, pid, open_id, serial) == first + "-"@ + d(serial)
                + ".log"@)
        }),
        crate::session_log::writer::is_log_name(log_name(secs, pid, open_id, serial)),
{
    reveal_strlit("-");
    assert("-"@ =~= seq!['-']);
    crate::text::lemma_decimal_digits(secs);
    crate::session_log::writer::law_log_extension(
        log_stem(secs, pid, open_id, serial),
        Seq::empty(),
    );
}

/// The first attempt at a name is the name itself; every later one has its number before
/// the ending.
pub proof fn law_attempt_shape(stem: Seq<char>, attempt: nat)
    requires
        !(stem.len() >= 4 && stem.skip(stem.len() - 4) == ".log"@),
    ensures
        log_attempt_name(stem + ".log"@, 0) == stem + ".log"@,
        attempt > 0 ==> log_attempt_name(stem + ".log"@, attempt) == stem + "-"@
            + crate::text::decimal(attempt) + ".log"@,
{
    reveal_strlit("-");
    reveal_strlit(".log");
    assert("-"@ =~= seq!['-']);
    let base = stem + ".log"@;
    assert(base.skip(base.len() - 4) =~= ".log"@);
    assert(base.take(base.len() - 4) =~= stem);
    reveal_with_fuel(without_log_endings, 2);
    assert(without_log_endings(base) == stem);
}

/// A hundred names are tried before a log is given up.
pub proof fn law_hundred_attempts()
    ensures
        LOG_NAME_ATTEMPTS == 100,
{
}

/// Each setting has a word of its own.
pub proof fn law_settings_have_their_words(setting: SessionLoggingOverride)
    ensures
        setting is On <==> setting.label_text() == seq!['o', 'n'],
        setting is Off <==> setting.label_text() == seq!['o', 'f', 'f'],
        setting is Inherit <==> setting.label_text() == "inherit"@,
{
    reveal_strlit("on");
    reveal_strlit("off");
    reveal_strlit("inherit");
    assert("on"@ =~= seq!['o', 'n']);
    assert("off"@ =~= seq!['o', 'f', 'f']);
    assert("inherit"@.len() == 7);
}

} // verus!
