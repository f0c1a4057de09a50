//! Elapsed time in words, for showing how old the cached forecasts are.
use vstd::prelude::*;
use vstd::string::*;
use crate::scheduler::whole_minutes;

verus! {

/// The decimal digit of `d`.
pub open spec fn digit_char(d: nat) -> char {
    seq!['0', '1', '2', '3', '4', '5', '6', '7', '8', '9'][d as int]
}

/// The decimal notation of `n`, without leading zeros.
pub open spec fn decimal(n: nat) -> Seq<char>
    decreases n,
{
    if n < 10 {
        seq![digit_char(n)]
    } else {
        decimal(n / 10).push(digit_char(n % 10))
    }
}

/// How long `seconds` is, in words.
pub open spec fn words_for(seconds: int) -> Seq<char> {
    let minutes = whole_minutes(seconds);
    if minutes < 1 {
        "less than 1 minute"@
    } else if minutes == 1 {
        "1 minute"@
    } else if minutes < 60 {
        decimal(minutes as nat) + " minutes"@
    } else if seconds / 3600 == 1 {
        "1 hour"@
    } else {
        decimal((seconds / 3600) as nat) + " hours"@
    }
}

/// What is shown for the time since the last fetch, if there was one.
pub open spec fn last_fetch_words_for(last_fetch: Option<i64>, now: i64) -> Seq<char> {
    match last_fetch {
        Some(t) => words_for(now - t),
        None => "an unknowable amount of time"@,
    }
}

/// Relies on `ToString` for `u64`, which writes an integer in decimal
/// notation with no sign and no leading zeros.
#[verifier::external_body]
fn decimal_text(n: u64) -> (r: String)
    ensures
        r@ == decimal(n as nat),
{
    n.to_string()
}

/// The time from `time` to `now` (seconds since the Unix epoch) in words:
/// under a minute, whole minutes under an hour, and whole hours beyond.
pub fn time_diff_in_words(time: i64, now: i64) -> (r: String)
    ensures
        r@ == words_for(now - time),
{
    let seconds: i128 = now as i128 - time as i128;
    let minutes: i128 = if seconds >= 0 {
        seconds / 60
    } else {
        -((-seconds) / 60)
    };
    if minutes < 1 {
        String::from_str("less than 1 minute")
    } else if minutes == 1 {
        String::from_str("1 minute")
    } else if minutes < 60 {
        let mut s = decimal_text(minutes as u64);
        s.append(" minutes");
        s
    } else {
        let hours: i128 = seconds / 3600;
        if hours == 1 {
            String::from_str("1 hour")
        } else {
            let mut s = decimal_text(hours as u64);
            s.append(" hours");
            s
        }
    }
}

/// The words shown for the age of the cache: the time since the last fetch,
/// or a fixed phrase when nothing was fetched yet.
pub fn last_fetch_words(last_fetch: Option<i64>, now: i64) -> (r: String)
    ensures
        r@ == last_fetch_words_for(last_fetch, now),
{
    match last_fetch {
        Some(t) => time_diff_in_words(t, now),
        None => String::from_str("an unknowable amount of time"),
    }
}

} // verus!
