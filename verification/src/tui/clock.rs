//! Times of day as they are shown.

use vstd::prelude::*;

use crate::text::{format_two_digits, two_digits};

verus! {

/// Hours, minutes and seconds.
pub open spec fn time_text(hour: nat, minute: nat, second: nat) -> Seq<char> {
    two_digits(hour) + ":"@ + two_digits(minute) + ":"@ + two_digits(second)
}

/// Show a time of day of which the caller knows the parts, such as the local time.
pub fn format_local_time(hour: u32, minute: u32, second: u32) -> (r: String)
    ensures
        r@ == time_text(hour as nat, minute as nat, second as nat),
{
    let mut r = format_two_digits(hour as u64);
    r.push_str(":");
    r.push_str(format_two_digits(minute as u64).as_str());
    r.push_str(":");
    r.push_str(format_two_digits(second as u64).as_str());
    r
}

/// The name of a day of the week, counted from Sunday.
pub open spec fn day_text(weekday: int) -> Seq<char> {
    if weekday == 0 {
        "Sun"@
    } else if weekday == 1 {
        "Mon"@
    } else if weekday == 2 {
        "Tue"@
    } else if weekday == 3 {
        "Wed"@
    } else if weekday == 4 {
        "Thu"@
    } else if weekday == 5 {
        "Fri"@
    } else {
        "Sat"@
    }
}

/// The clock at so many seconds after the beginning of 1970, which was a Thursday: the
/// day of the week and the time, in UTC.
pub open spec fn utc_clock(secs: nat) -> Seq<char> {
    day_text(((secs / 86400 + 4) % 7) as int) + " "@ + time_text(
        (secs / 3600) % 24,
        (secs / 60) % 60,
        secs % 60,
    )
}

fn day_name(weekday: u64) -> (r: &'static str)
    requires
        weekday < 7,
    ensures
        r@ == day_text(weekday as int),
{
    if weekday == 0 {
        "Sun"
    } else if weekday == 1 {
        "Mon"
    } else if weekday == 2 {
        "Tue"
    } else if weekday == 3 {
        "Wed"
    } else if weekday == 4 {
        "Thu"
    } else if weekday == 5 {
        "Fri"
    } else {
        "Sat"
    }
}

/// Show the clock at so many seconds after the beginning of 1970.
pub fn format_utc_clock(secs: u64) -> (r: String)
    ensures
        r@ == utc_clock(secs as nat),
{
    let weekday: u64 = ((secs / 86400) % 7 + 4) % 7;
    assert(weekday == (secs / 86400 + 4) % 7);
    let mut r = day_name(weekday).to_owned();
    r.push_str(" ");
    let hour: u64 = (secs / 3600) % 24;
    let minute: u64 = (secs / 60) % 60;
    let second: u64 = secs % 60;
    r.push_str(format_local_time(hour as u32, minute as u32, second as u32).as_str());
    r
}

/// The clock shows the same again after seven days.
pub proof fn law_clock_repeats_weekly(secs: nat)
    ensures
        utc_clock(secs + 604800) == utc_clock(secs),
{
    assert((secs + 604800) / 86400 == secs / 86400 + 7);
    assert((secs + 604800) / 3600 == secs / 3600 + 168);
    assert((secs + 604800) / 60 == secs / 60 + 10080);
    assert((secs / 3600 + 168) % 24 == (secs / 3600) % 24);
    assert((secs / 60 + 10080) % 60 == (secs / 60) % 60);
    assert((secs / 86400 + 7 + 4) % 7 == (secs / 86400 + 4) % 7);
}

/// A time of day is shown with two digits for each part, a colon between them; each
/// part is read back from its digits.
pub proof fn law_time_shape(hour: nat, minute: nat, second: nat)
    requires
        hour < 100,
        minute < 100,
        second < 100,
    ensures
        ({
            let t = time_text(hour, minute, second);
            &&& t.len() == 8
            &&& t[0] as int == 48 + hour / 10
            &&& t[1] as int == 48 + hour % 10
            &&& t[2] as int == 58
            &&& t[3] as int == 48 + minute / 10
            &&& t[4] as int == 48 + minute % 10
            &&& t[5] as int == 58
            &&& t[6] as int == 48 + second / 10
            &&& t[7] as int == 48 + second % 10
        }),
{
    reveal_strlit(":");
    lemma_both_digits(hour);
    lemma_both_digits(minute);
    lemma_both_digits(second);
}

proof fn lemma_both_digits(n: nat)
    requires
        n < 100,
    ensures
        two_digits(n).len() == 2,
        two_digits(n)[0] as int == 48 + n / 10,
        two_digits(n)[1] as int == 48 + n % 10,
{
    reveal_with_fuel(crate::text::decimal, 3);
}

/// So many days, hours, minutes and seconds after the beginning of 1970, the clock shows
/// those hours, minutes and seconds behind the day of the week and a space. The first
/// day was a Thursday, and the days follow one another as they do in a week.
pub proof fn law_clock_shows_the_time(day: nat, hour: nat, minute: nat, second: nat)
    requires
        hour < 24,
        minute < 60,
        second < 60,
    ensures
        ({
            let t = utc_clock(day * 86400 + hour * 3600 + minute * 60 + second);
            &&& t.len() == 12
            &&& t[3] as int == 32
            &&& t.skip(4) == time_text(hour, minute, second)
            &&& day % 7 == 0 ==> t.take(3) == seq!['T', 'h', 'u']
            &&& day % 7 == 1 ==> t.take(3) == seq!['F', 'r', 'i']
            &&& day % 7 == 2 ==> t.take(3) == seq!['S', 'a', 't']
            &&& day % 7 == 3 ==> t.take(3) == seq!['S', 'u', 'n']
            &&& day % 7 == 4 ==> t.take(3) == seq!['M', 'o', 'n']
            &&& day % 7 == 5 ==> t.take(3) == seq!['T', 'u', 'e']
            &&& day % 7 == 6 ==> t.take(3) == seq!['W', 'e', 'd']
        }),
{
    let secs: nat = day * 86400 + hour * 3600 + minute * 60 + second;
    assert(secs / 86400 == day);
    assert(secs / 3600 == day * 24 + hour);
    assert(secs / 60 == day * 1440 + hour * 60 + minute);
    assert((secs / 3600) % 24 == hour);
    assert((secs / 60) % 60 == minute);
    assert(secs % 60 == second);
    law_time_shape(hour, minute, second);
    reveal_strlit(" ");
    reveal_strlit("Sun");
    reveal_strlit("Mon");
    reveal_strlit("Tue");
    reveal_strlit("Wed");
    reveal_strlit("Thu");
    reveal_strlit("Fri");
    reveal_strlit("Sat");
    let t = utc_clock(secs);
    let weekday = ((day + 4) % 7) as int;
    assert(day_text(weekday).len() == 3);
    assert(t.take(3) =~= day_text(weekday));
    assert(t.skip(4) =~= time_text(hour, minute, second));
}

} // verus!
