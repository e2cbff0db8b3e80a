//! Text: the string operations that the rest of the crate is stated over.
//!
//! A string is modelled by the sequence of its characters.

use vstd::prelude::*;

verus! {

/// `String::push`: the character is appended and nothing else changes.
pub assume_specification[ String::push ](s: &mut String, c: char)
    ensures
        final(s)@ == old(s)@.push(c),
;

/// `String::push_str`: the text is appended and nothing else changes.
pub assume_specification[ String::push_str ](s: &mut String, other: &str)
    ensures
        final(s)@ == old(s)@ + other@,
;

/// `str::eq`: two string slices are equal when they hold the same characters.
pub assume_specification[ <str as PartialEq<str>>::eq ](a: &str, b: &str) -> (r: bool)
    ensures
        r == (a@ == b@),
;

/// The characters of every string of a list.
pub open spec fn texts(v: Seq<String>) -> Seq<Seq<char>> {
    v.map_values(|s: String| s@)
}

/// The characters of an optional string.
pub open spec fn text_opt(o: Option<String>) -> Option<Seq<char>> {
    match o {
        Some(s) => Some(s@),
        None => None,
    }
}

/// The characters of an optional string slice.
pub open spec fn str_opt(o: Option<&str>) -> Option<Seq<char>> {
    match o {
        Some(s) => Some(s@),
        None => None,
    }
}

/// The characters of a string as a vector.
pub fn chars_of(s: &str) -> (r: Vec<char>)
    ensures
        r@ == s@,
{
    let mut r: Vec<char> = Vec::new();
    for c in it: s.chars()
        invariant
            r@ == it.seq().take(it.index()),
            it.seq() == s@,
    {
        r.push(c);
    }
    r
}

/// The string made of the characters `from..to` of a vector.
pub fn text_of(v: &Vec<char>, from: usize, to: usize) -> (r: String)
    requires
        from <= to <= v@.len(),
    ensures
        r@ == v@.subrange(from as int, to as int),
{
    let mut r = String::new();
    let mut i: usize = from;
    while i < to
        invariant
            from <= i <= to <= v@.len(),
            r@ == v@.subrange(from as int, i as int),
        decreases to - i,
    {
        r.push(v[i]);
        i = i + 1;
    }
    r
}

/// Copies a list of strings.
pub fn clone_texts(v: &Vec<String>) -> (r: Vec<String>)
    ensures
        r@ == v@,
{
    let mut r: Vec<String> = Vec::new();
    let mut i: usize = 0;
    while i < v.len()
        invariant
            i <= v@.len(),
            r@ == v@.take(i as int),
        decreases v@.len() - i,
    {
        r.push(v[i].clone());
        i = i + 1;
    }
    r
}

// ---------------------------------------------------------------------------
// White space

/// The characters with the Unicode property `White_Space`.
pub open spec fn is_space(c: char) -> bool {
    ||| '\u{9}' <= c <= '\u{d}'
    ||| c == ' '
    ||| c == '\u{85}'
    ||| c == '\u{a0}'
    ||| c == '\u{1680}'
    ||| '\u{2000}' <= c <= '\u{200a}'
    ||| c == '\u{2028}'
    ||| c == '\u{2029}'
    ||| c == '\u{202f}'
    ||| c == '\u{205f}'
    ||| c == '\u{3000}'
}

/// Whether a character is white space.
pub fn char_is_space(c: char) -> (r: bool)
    ensures
        r == is_space(c),
{
    ('\u{9}' <= c && c <= '\u{d}') || c == ' ' || c == '\u{85}' || c == '\u{a0}' || c == '\u{1680}'
        || ('\u{2000}' <= c && c <= '\u{200a}') || c == '\u{2028}' || c == '\u{2029}' || c
        == '\u{202f}' || c == '\u{205f}' || c == '\u{3000}'
}

/// The text without its leading white space.
pub open spec fn trimmed_start(s: Seq<char>) -> Seq<char>
    decreases s.len(),
{
    if s.len() > 0 && is_space(s[0]) {
        trimmed_start(s.skip(1))
    } else {
        s
    }
}

/// The text without its trailing white space.
pub open spec fn trimmed_end(s: Seq<char>) -> Seq<char>
    decreases s.len(),
{
    if s.len() > 0 && is_space(s.last()) {
        trimmed_end(s.drop_last())
    } else {
        s
    }
}

/// The text without leading and trailing white space.
pub open spec fn trimmed(s: Seq<char>) -> Seq<char> {
    trimmed_end(trimmed_start(s))
}

/// What remains after trimming the front, given where it starts.
proof fn lemma_trimmed_start(s: Seq<char>, i: int)
    requires
        0 <= i <= s.len(),
        forall|k: int| 0 <= k < i ==> is_space(#[trigger] s[k]),
        i < s.len() ==> !is_space(s[i]),
    ensures
        trimmed_start(s) == s.skip(i),
    decreases s.len(),
{
    if i == 0 {
        assert(s.skip(0) =~= s);
    } else {
        assert(is_space(s[0]));
        let t = s.skip(1);
        assert forall|k: int| 0 <= k < i - 1 implies is_space(#[trigger] t[k]) by {
            assert(is_space(s[k + 1]));
        }
        lemma_trimmed_start(t, i - 1);
        assert(t.skip(i - 1) =~= s.skip(i));
    }
}

/// What remains after trimming the end, given where it ends.
proof fn lemma_trimmed_end(s: Seq<char>, j: int)
    requires
        0 <= j <= s.len(),
        forall|k: int| j <= k < s.len() ==> is_space(#[trigger] s[k]),
        j > 0 ==> !is_space(s[j - 1]),
    ensures
        trimmed_end(s) == s.take(j),
    decreases s.len(),
{
    if j == s.len() {
        assert(s.take(j) =~= s);
    } else {
        assert(is_space(s.last()));
        let t = s.drop_last();
        assert forall|k: int| j <= k < t.len() implies is_space(#[trigger] t[k]) by {
            assert(is_space(s[k]));
        }
        lemma_trimmed_end(t, j);
        assert(t.take(j) =~= s.take(j));
    }
}

/// Removes trailing white space.
pub fn trim_end_text(s: &str) -> (r: String)
    ensures
        r@ == trimmed_end(s@),
{
    let v = chars_of(s);
    let mut j: usize = v.len();
    while j > 0 && char_is_space(v[j - 1])
        invariant
            j <= v@.len(),
            forall|k: int| j <= k < v@.len() ==> is_space(#[trigger] v@[k]),
        decreases j,
    {
        j = j - 1;
    }
    proof {
        lemma_trimmed_end(v@, j as int);
    }
    text_of(&v, 0, j)
}

/// Removes leading and trailing white space.
pub fn trim_text(s: &str) -> (r: String)
    ensures
        r@ == trimmed(s@),
{
    let v = chars_of(s);
    let mut i: usize = 0;
    while i < v.len() && char_is_space(v[i])
        invariant
            i <= v@.len(),
            forall|k: int| 0 <= k < i ==> is_space(#[trigger] v@[k]),
        decreases v@.len() - i,
    {
        i = i + 1;
    }
    let mut j: usize = v.len();
    while j > i && char_is_space(v[j - 1])
        invariant
            i <= j <= v@.len(),
            forall|k: int| j <= k < v@.len() ==> is_space(#[trigger] v@[k]),
        decreases j,
    {
        j = j - 1;
    }
    proof {
        lemma_trimmed_start(v@, i as int);
        let t = v@.skip(i as int);
        assert forall|k: int| j - i <= k < t.len() implies is_space(#[trigger] t[k]) by {
            assert(is_space(v@[k + i]));
        }
        lemma_trimmed_end(t, j - i);
        assert(t.take(j - i) =~= v@.subrange(i as int, j as int));
    }
    text_of(&v, i, j)
}

/// Trimming leaves neither end white and is part of the text.
pub proof fn lemma_trimmed_ends(s: Seq<char>)
    ensures
        trimmed(s).len() <= s.len(),
        trimmed(s).len() > 0 ==> !is_space(trimmed(s)[0]) && !is_space(trimmed(s).last()),
{
    lemma_trimmed_start_shape(s);
    lemma_trimmed_end_shape(trimmed_start(s));
}

proof fn lemma_trimmed_start_shape(s: Seq<char>)
    ensures
        trimmed_start(s).len() <= s.len(),
        trimmed_start(s).len() > 0 ==> !is_space(trimmed_start(s)[0]),
    decreases s.len(),
{
    if s.len() > 0 && is_space(s[0]) {
        lemma_trimmed_start_shape(s.skip(1));
    }
}

proof fn lemma_trimmed_end_shape(s: Seq<char>)
    ensures
        trimmed_end(s).len() <= s.len(),
        trimmed_end(s) == s.take(trimmed_end(s).len() as int),
        trimmed_end(s).len() > 0 ==> !is_space(trimmed_end(s).last()),
    decreases s.len(),
{
    if s.len() > 0 && is_space(s.last()) {
        lemma_trimmed_end_shape(s.drop_last());
        assert(s.drop_last().take(trimmed_end(s).len() as int) =~= s.take(
            trimmed_end(s).len() as int,
        ));
    } else {
        assert(s.take(s.len() as int) =~= s);
    }
}

/// Text without white space at its ends is already trimmed.
pub proof fn lemma_trimmed_noop(s: Seq<char>)
    requires
        s.len() > 0 ==> !is_space(s[0]) && !is_space(s.last()),
    ensures
        trimmed(s) == s,
{
    lemma_trimmed_start(s, 0);
    assert(s.skip(0) =~= s);
    lemma_trimmed_end(s, s.len() as int);
    assert(s.take(s.len() as int) =~= s);
}

// ---------------------------------------------------------------------------
// Numbers

/// The character of a decimal digit.
pub open spec fn digit(d: int) -> char {
    (48 + d) as char
}

/// Whether a character is an ASCII digit.
pub open spec fn is_digit(c: char) -> bool {
    '0' <= c <= '9'
}

/// A natural number in decimal, without leading zeros.
pub open spec fn decimal(n: nat) -> Seq<char>
    decreases n,
{
    if n < 10 {
        seq![digit(n as int)]
    } else {
        decimal(n / 10).push(digit((n % 10) as int))
    }
}

/// An integer in decimal, with a minus sign in front where it is negative.
pub open spec fn decimal_int(i: int) -> Seq<char> {
    if i < 0 {
        seq!['-'] + decimal((-i) as nat)
    } else {
        decimal(i as nat)
    }
}

/// A number in decimal, padded with a zero to two digits.
pub open spec fn two_digits(n: nat) -> Seq<char> {
    if n < 10 {
        seq!['0'] + decimal(n)
    } else {
        decimal(n)
    }
}

fn digit_char(d: u8) -> (c: char)
    requires
        d < 10,
    ensures
        c == digit(d as int),
{
    (48 + d) as char
}

/// Writes a number in decimal.
pub fn format_u64(n: u64) -> (r: String)
    ensures
        r@ == decimal(n as nat),
    decreases n,
{
    if n < 10 {
        let mut r = String::new();
        r.push(digit_char(n as u8));
        assert(r@ =~= decimal(n as nat));
        r
    } else {
        let mut r = format_u64(n / 10);
        r.push(digit_char((n % 10) as u8));
        r
    }
}

/// Writes a signed number in decimal.
pub fn format_i64(n: i64) -> (r: String)
    ensures
        r@ == decimal_int(n as int),
{
    if n < 0 {
        let magnitude: u64 = (-(n as i128)) as u64;
        let mut r = String::new();
        r.push('-');
        let digits = format_u64(magnitude);
        r.push_str(digits.as_str());
        assert(r@ =~= decimal_int(n as int));
        r
    } else {
        format_u64(n as u64)
    }
}

/// Writes a number with at least two digits.
pub fn format_two_digits(n: u64) -> (r: String)
    ensures
        r@ == two_digits(n as nat),
{
    if n < 10 {
        let mut r = String::new();
        r.push('0');
        let digits = format_u64(n);
        r.push_str(digits.as_str());
        assert(r@ =~= two_digits(n as nat));
        r
    } else {
        format_u64(n)
    }
}

/// A decimal text is not empty and holds digits only.
pub proof fn lemma_decimal_digits(n: nat)
    ensures
        decimal(n).len() > 0,
        forall|i: int| 0 <= i < decimal(n).len() ==> is_digit(#[trigger] decimal(n)[i]),
    decreases n,
{
    if n >= 10 {
        lemma_decimal_digits(n / 10);
    }
}

/// Different numbers have different decimal texts.
pub proof fn lemma_decimal_injective(a: nat, b: nat)
    ensures
        decimal(a) == decimal(b) ==> a == b,
    decreases a,
{
    if decimal(a) == decimal(b) {
        lemma_decimal_digits(a / 10);
        lemma_decimal_digits(b / 10);
        assert(decimal(a).last() == digit((a % 10) as int));
        assert(decimal(b).last() == digit((b % 10) as int));
        assert(a % 10 == b % 10);
        if a >= 10 {
            assert(decimal(a).len() >= 2);
            assert(b >= 10);
            assert(decimal(a).drop_last() =~= decimal(a / 10));
            assert(decimal(b).drop_last() =~= decimal(b / 10));
            lemma_decimal_injective(a / 10, b / 10);
        } else {
            assert(decimal(b).len() == 1);
            assert(b < 10);
        }
    }
}

/// The number that a run of digits stands for.
pub open spec fn digits_value(s: Seq<char>) -> nat
    decreases s.len(),
{
    if s.len() == 0 {
        0
    } else {
        digits_value(s.drop_last()) * 10 + (s.last() as u32 - 48) as nat
    }
}

/// Whether every character is a digit.
pub open spec fn all_digits(s: Seq<char>) -> bool {
    forall|i: int| 0 <= i < s.len() ==> is_digit(#[trigger] s[i])
}

/// The text of a number without the plus sign that may stand in front of it.
pub open spec fn without_plus(s: Seq<char>) -> Seq<char> {
    if s.len() > 0 && s[0] == '+' {
        s.skip(1)
    } else {
        s
    }
}

/// The port that a text denotes: an optional plus sign, then digits only, with
/// a value that fits in sixteen bits.
pub open spec fn port_number(s: Seq<char>) -> Option<u16> {
    let body = without_plus(s);
    if body.len() > 0 && all_digits(body) && digits_value(body) <= u16::MAX {
        Some(digits_value(body) as u16)
    } else {
        None
    }
}

proof fn lemma_digits_value_grows(s: Seq<char>, i: int)
    requires
        0 <= i <= s.len(),
    ensures
        digits_value(s.take(i)) <= digits_value(s),
    decreases s.len() - i,
{
    if i == s.len() {
        assert(s.take(i) =~= s);
    } else {
        assert(s.take(i + 1).drop_last() =~= s.take(i));
        lemma_digits_value_grows(s, i + 1);
    }
}

/// Reads a port number.
pub fn parse_port(s: &str) -> (r: Option<u16>)
    ensures
        r == port_number(s@),
{
    let v = chars_of(s);
    let start: usize = if v.len() > 0 && v[0] == '+' {
        1
    } else {
        0
    };
    let ghost body = without_plus(s@);
    assert(body =~= v@.skip(start as int));
    if start == v.len() {
        return None;
    }
    let mut value: u32 = 0;
    let mut i: usize = start;
    while i < v.len()
        invariant
            start <= i <= v@.len(),
            body == v@.skip(start as int),
            body == without_plus(s@),
            forall|k: int| 0 <= k < i - start ==> is_digit(#[trigger] body[k]),
            value == digits_value(body.take(i - start)),
            value <= u16::MAX,
        decreases v@.len() - i,
    {
        let c = v[i];
        assert(c == body[i - start]);
        if c < '0' || c > '9' {
            return None;
        }
        let d: u32 = c as u32 - 48;
        proof {
            assert(body.take(i - start + 1).drop_last() =~= body.take(i - start));
            assert(body.take(i - start + 1).last() == c);
            lemma_digits_value_grows(body, i - start + 1);
        }
        value = value * 10 + d;
        if value > 65535 {
            return None;
        }
        i = i + 1;
    }
    assert(body.take(body.len() as int) =~= body);
    Some(value as u16)
}

// ---------------------------------------------------------------------------
// Joining and splitting

/// The parts in order, with the separator between any two of them.
pub open spec fn joined(parts: Seq<Seq<char>>, sep: Seq<char>) -> Seq<char>
    decreases parts.len(),
{
    if parts.len() == 0 {
        Seq::empty()
    } else if parts.len() == 1 {
        parts[0]
    } else {
        joined(parts.drop_last(), sep) + sep + parts.last()
    }
}

/// Joins strings with a separator.
pub fn join_texts(parts: &Vec<String>, sep: &str) -> (r: String)
    ensures
        r@ == joined(texts(parts@), sep@),
{
    let mut r = String::new();
    let mut i: usize = 0;
    while i < parts.len()
        invariant
            i <= parts@.len(),
            r@ == joined(texts(parts@).take(i as int), sep@),
        decreases parts@.len() - i,
    {
        proof {
            let t = texts(parts@);
            assert(t.take(i + 1).drop_last() =~= t.take(i as int));
            assert(t.take(i + 1).last() == parts@[i as int]@);
        }
        if i > 0 {
            r.push_str(sep);
        }
        r.push_str(parts[i].as_str());
        i = i + 1;
        assert(r@ =~= joined(texts(parts@).take(i as int), sep@));
    }
    assert(texts(parts@).take(i as int) =~= texts(parts@));
    r
}

/// The pieces of a text between the occurrences of a character: one more than
/// there are occurrences.
pub open spec fn split_on(s: Seq<char>, c: char) -> Seq<Seq<char>>
    decreases s.len(),
{
    if s.len() == 0 {
        seq![Seq::empty()]
    } else {
        let pieces = split_on(s.drop_last(), c);
        if s.last() == c {
            pieces.push(Seq::empty())
        } else {
            pieces.update(pieces.len() - 1, pieces.last().push(s.last()))
        }
    }
}

/// Splits a text at every occurrence of a character.
pub fn split_text(s: &str, c: char) -> (r: Vec<String>)
    ensures
        texts(r@) == split_on(s@, c),
{
    let v = chars_of(s);
    let mut done: Vec<String> = Vec::new();
    let mut current = String::new();
    let mut i: usize = 0;
    assert(texts(done@).push(current@) =~= split_on(v@.take(0), c));
    while i < v.len()
        invariant
            i <= v@.len(),
            texts(done@).push(current@) == split_on(v@.take(i as int), c),
        decreases v@.len() - i,
    {
        let ghost before = texts(done@).push(current@);
        let ghost old_current = current@;
        let ghost old_done = texts(done@);
        proof {
            assert(v@.take(i + 1).drop_last() =~= v@.take(i as int));
            assert(v@.take(i + 1).last() == v@[i as int]);
        }
        if v[i] == c {
            done.push(current);
            current = String::new();
            assert(texts(done@) =~= before);
            assert(texts(done@).push(current@) =~= before.push(Seq::empty()));
        } else {
            current.push(v[i]);
            assert(texts(done@).push(current@) =~= before.update(
                before.len() - 1,
                old_current.push(v@[i as int]),
            ));
        }
        i = i + 1;
    }
    assert(v@.take(i as int) =~= s@);
    let ghost whole = texts(done@).push(current@);
    done.push(current);
    assert(texts(done@) =~= whole);
    done
}

/// Joining the pieces of a text with the character that separates them gives the text
/// back, and no piece holds the character.
pub proof fn law_split_is_undone_by_joining(s: Seq<char>, c: char)
    ensures
        split_on(s, c).len() > 0,
        joined(split_on(s, c), seq![c]) == s,
        forall|i: int| 0 <= i < split_on(s, c).len() ==> !(#[trigger] split_on(s, c)[i]).contains(c),
    decreases s.len(),
{
    if s.len() == 0 {
        assert(joined(split_on(s, c), seq![c]) =~= s);
    } else {
        let front = s.drop_last();
        let pieces = split_on(front, c);
        law_split_is_undone_by_joining(front, c);
        let all = split_on(s, c);
        if s.last() == c {
            assert(all.drop_last() =~= pieces);
            assert(joined(all, seq![c]) =~= joined(pieces, seq![c]) + seq![c] + Seq::<
                char,
            >::empty());
            assert(joined(all, seq![c]) =~= s);
            assert forall|i: int| 0 <= i < all.len() implies !(#[trigger] all[i]).contains(c) by {
                if i < pieces.len() {
                    assert(all[i] == pieces[i]);
                }
            }
        } else {
            let n = pieces.len() - 1;
            let grown = pieces.last().push(s.last());
            assert(all.drop_last() =~= pieces.drop_last());
            assert(all.last() == grown);
            if all.len() == 1 {
                assert(joined(all, seq![c]) =~= s);
            } else {
                assert(joined(all, seq![c]) =~= joined(pieces, seq![c]).push(s.last()));
                assert(joined(all, seq![c]) =~= s);
            }
            assert forall|i: int| 0 <= i < all.len() implies !(#[trigger] all[i]).contains(c) by {
                if i < n {
                    assert(all[i] == pieces[i]);
                } else {
                    assert(!pieces[n].contains(c));
                    if all[i].contains(c) {
                        let k = choose|k: int| 0 <= k < all[i].len() && all[i][k] == c;
                        assert(pieces[n][k] == c);
                    }
                }
            }
        }
    }
}

/// Reading the digits of a number gives the number back.
pub proof fn law_decimal_reads_back(n: nat)
    ensures
        digits_value(decimal(n)) == n,
        all_digits(decimal(n)),
        decimal(n).len() > 0,
        n > 0 ==> decimal(n)[0] != '0',
        decimal(n).len() == 1 <==> n < 10,
    decreases n,
{
    lemma_decimal_digits(n);
    reveal_with_fuel(digits_value, 2);
    if n < 10 {
        assert(decimal(n).drop_last() =~= Seq::empty());
        assert(decimal(n).last() as u32 == 48 + n);
    } else {
        law_decimal_reads_back(n / 10);
        assert(decimal(n).drop_last() =~= decimal(n / 10));
        assert(decimal(n).last() as u32 == 48 + n % 10);
        assert(n == (n / 10) * 10 + n % 10);
        assert(decimal(n)[0] == decimal(n / 10)[0]);
    }
}

/// A signed number has a minus sign exactly where it is negative, before the digits of
/// its magnitude.
pub proof fn law_signed_decimal(i: int)
    ensures
        i >= 0 ==> decimal_int(i) == decimal(i as nat),
        i < 0 ==> decimal_int(i)[0] == '-' && decimal_int(i).skip(1) == decimal((-i) as nat),
{
    if i < 0 {
        assert(decimal_int(i).skip(1) =~= decimal((-i) as nat));
    }
}

/// Every number of one or two digits is written with two, and read back from them.
pub proof fn law_two_digits(n: nat)
    requires
        n < 100,
    ensures
        two_digits(n).len() == 2,
        all_digits(two_digits(n)),
        digits_value(two_digits(n)) == n,
{
    law_decimal_reads_back(n);
    reveal_with_fuel(digits_value, 3);
    reveal_with_fuel(decimal, 3);
    let t = two_digits(n);
    assert(t[0] as u32 == 48 + n / 10);
    assert(t[1] as u32 == 48 + n % 10);
    assert(t.drop_last().drop_last() =~= Seq::empty());
}

/// A port is read from its decimal text, with a plus sign or without, exactly where
/// sixteen bits hold it; and from nothing that has another character in it.
pub proof fn law_port_reads_back(n: nat, s: Seq<char>)
    ensures
        n <= u16::MAX ==> port_number(decimal(n)) == Some(n as u16),
        n > u16::MAX ==> port_number(decimal(n)) is None,
        port_number(seq!['+'] + decimal(n)) == port_number(decimal(n)),
        port_number(s) is Some ==> s.len() > 0 && forall|i: int|
            0 <= i < s.len() ==> is_digit(#[trigger] s[i]) || (i == 0 && s[0] == '+'),
        port_number(Seq::empty()) is None,
{
    law_decimal_reads_back(n);
    assert(is_digit(decimal(n)[0]));
    assert(without_plus(decimal(n)) == decimal(n));
    assert((seq!['+'] + decimal(n)).skip(1) =~= decimal(n));
    if port_number(s) is Some {
        let body = without_plus(s);
        assert forall|i: int| 0 <= i < s.len() implies is_digit(#[trigger] s[i]) || (i == 0 && s[0]
            == '+') by {
            if s[0] == '+' {
                if i > 0 {
                    assert(is_digit(body[i - 1]));
                }
            } else {
                assert(is_digit(body[i]));
            }
        }
    }
}

/// Trimming takes nothing but white space off the two ends.
pub proof fn law_trimming_takes_only_space(s: Seq<char>) -> (from: int)
    ensures
        0 <= from <= from + trimmed(s).len() <= s.len(),
        trimmed(s) == s.subrange(from, from + trimmed(s).len()),
        forall|i: int| 0 <= i < from ==> is_space(#[trigger] s[i]),
        trimmed(s).len() > 0 ==> forall|i: int|
            from + trimmed(s).len() <= i < s.len() ==> is_space(#[trigger] s[i]),
        trimmed(s).len() == 0 ==> forall|i: int| 0 <= i < s.len() ==> is_space(#[trigger] s[i]),
        trimmed(s).len() > 0 ==> !is_space(trimmed(s)[0]) && !is_space(trimmed(s).last()),
{
    lemma_trimmed_ends(s);
    let from = lemma_start_of_trimmed(s);
    let t = trimmed_start(s);
    lemma_end_of_trimmed(t);
    assert(trimmed(s) =~= s.subrange(from, from + trimmed(s).len()));
    assert forall|i: int| from + trimmed(s).len() <= i < s.len() implies is_space(
        #[trigger] s[i],
    ) by {
        assert(is_space(t[i - from]));
    }
    from
}

proof fn lemma_start_of_trimmed(s: Seq<char>) -> (from: int)
    ensures
        0 <= from <= s.len(),
        trimmed_start(s) == s.skip(from),
        forall|i: int| 0 <= i < from ==> is_space(#[trigger] s[i]),
    decreases s.len(),
{
    if s.len() > 0 && is_space(s[0]) {
        let rest = s.skip(1);
        let from = lemma_start_of_trimmed(rest);
        assert(rest.skip(from) =~= s.skip(from + 1));
        assert forall|i: int| 0 <= i < from + 1 implies is_space(#[trigger] s[i]) by {
            if i > 0 {
                assert(is_space(rest[i - 1]));
            }
        }
        from + 1
    } else {
        assert(s.skip(0) =~= s);
        0
    }
}

proof fn lemma_end_of_trimmed(s: Seq<char>)
    ensures
        trimmed_end(s).len() <= s.len(),
        trimmed_end(s) == s.take(trimmed_end(s).len() as int),
        forall|i: int| trimmed_end(s).len() <= i < s.len() ==> is_space(#[trigger] s[i]),
    decreases s.len(),
{
    lemma_trimmed_end_shape(s);
    if s.len() > 0 && is_space(s.last()) {
        lemma_end_of_trimmed(s.drop_last());
        assert forall|i: int| trimmed_end(s).len() <= i < s.len() implies is_space(
            #[trigger] s[i],
        ) by {
            if i < s.len() - 1 {
                assert(is_space(s.drop_last()[i]));
            }
        }
    }
}

/// Taking white space off the end of a text leaves a beginning of it that ends in
/// something else.
pub proof fn law_trimming_the_end(s: Seq<char>)
    ensures
        trimmed_end(s).len() <= s.len(),
        trimmed_end(s) == s.take(trimmed_end(s).len() as int),
        forall|i: int| trimmed_end(s).len() <= i < s.len() ==> is_space(#[trigger] s[i]),
        trimmed_end(s).len() > 0 ==> !is_space(trimmed_end(s).last()),
{
    lemma_end_of_trimmed(s);
    lemma_trimmed_end_shape(s);
}

/// Nothing is left of a text exactly where all of it is white space.
pub proof fn lemma_trimmed_empty(s: Seq<char>)
    ensures
        trimmed(s).len() == 0 <==> forall|i: int| 0 <= i < s.len() ==> is_space(#[trigger] s[i]),
{
    let from = law_trimming_takes_only_space(s);
    if trimmed(s).len() > 0 {
        assert(trimmed(s)[0] == s[from]);
    }
}

/// White space is the space, the controls from tabulator to carriage return, the next
/// line, and the other spaces and separators of Unicode; no other ASCII character is.
pub proof fn law_white_space(c: char)
    ensures
        ({
            let n = c as u32;
            is_space(c) <==> 9 <= n <= 13 || n == 32 || n == 133 || n == 160 || n == 5760 || 8192
                <= n <= 8202 || n == 8232 || n == 8233 || n == 8239 || n == 8287 || n == 12288
        }),
{
}

/// A text with a separator and a piece behind it is split into the pieces of the text
/// and that piece.
pub proof fn law_split_one_more(s: Seq<char>, piece: Seq<char>, c: char)
    requires
        !piece.contains(c),
    ensures
        split_on(s + seq![c] + piece, c) == split_on(s, c).push(piece),
        split_on(piece, c) == seq![piece],
    decreases piece.len(),
{
    let whole = s + seq![c] + piece;
    if piece.len() == 0 {
        assert(whole.drop_last() =~= s);
        assert(piece =~= Seq::empty());
        assert(whole.last() == c);
        assert(split_on(piece, c) =~= seq![piece]);
    } else {
        let less = piece.drop_last();
        assert forall|i: int| 0 <= i < less.len() implies less[i] != c by {
            assert(piece[i] != c);
        }
        law_split_one_more(s, less, c);
        assert(whole.drop_last() =~= s + seq![c] + less);
        assert(piece[piece.len() - 1] != c);
        assert(whole.last() == piece.last());
        assert(less.push(piece.last()) =~= piece);
        assert(split_on(whole, c) =~= split_on(s, c).push(piece));
        assert(split_on(piece, c) =~= seq![piece]);
    }
}

/// Joining nothing gives nothing, joining one part gives that part, and each part more
/// adds the separator and the part.
pub proof fn law_joining_grows(parts: Seq<Seq<char>>, part: Seq<char>, sep: Seq<char>)
    ensures
        joined(Seq::empty(), sep).len() == 0,
        joined(seq![part], sep) == part,
        parts.len() > 0 ==> joined(parts.push(part), sep) == joined(parts, sep) + sep + part,
{
    assert(parts.push(part).drop_last() =~= parts);
}

/// An optional string has characters exactly where it is there, and they are its own.
pub proof fn law_optional_texts(s: String, t: &str, v: Seq<String>, i: int)
    ensures
        text_opt(None) is None,
        text_opt(Some(s)) == Some(s@),
        str_opt(None) is None,
        str_opt(Some(t)) == Some(t@),
        texts(v).len() == v.len(),
        0 <= i < v.len() ==> texts(v)[i] == v[i]@,
{
}

} // verus!
