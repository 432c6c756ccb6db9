//! Wall-clock time: when an item was added, and how long ago a recovery
//! snapshot was written.

use std::time::{Duration, SystemTime, SystemTimeError};

use vstd::prelude::*;

use crate::text::{decimal_spec, push_decimal};

verus! {

#[verifier::external_type_specification]
#[verifier::external_body]
pub struct ExSystemTime(SystemTime);

#[verifier::external_type_specification]
#[verifier::external_body]
pub struct ExSystemTimeError(SystemTimeError);

/// Calls `SystemTime::now`. The system clock can be anything, so nothing is
/// promised of the value.
#[verifier::external_body]
fn clock_now() -> SystemTime {
    SystemTime::now()
}

/// Calls `SystemTime::duration_since` with `std::time::UNIX_EPOCH`: `Ok`
/// with the time from the start of Unix time to `t`, or an error when `t`
/// lies before it. Clock readings are opaque here, so which of the two
/// comes back is not stated.
#[verifier::external_body]
fn since_unix_epoch(t: &SystemTime) -> Result<Duration, SystemTimeError> {
    t.duration_since(std::time::UNIX_EPOCH)
}

/// Calls `SystemTime::duration_since`: `Ok` with the time from `earlier`
/// to `later`, or an error when `earlier` is after `later`. Clock readings
/// are opaque here, so which of the two comes back is not stated.
#[verifier::external_body]
fn duration_between(later: &SystemTime, earlier: &SystemTime) -> Result<Duration, SystemTimeError> {
    later.duration_since(*earlier)
}

/// Calls `Duration::as_millis`: the whole milliseconds of `d`. A `Duration`
/// is opaque here, so the value is not stated.
#[verifier::external_body]
fn whole_millis(d: &Duration) -> u128 {
    d.as_millis()
}

/// Calls `Duration::as_secs`: the whole seconds of `d`. A `Duration` is
/// opaque here, so the value is not stated.
#[verifier::external_body]
fn whole_secs(d: &Duration) -> u64 {
    d.as_secs()
}

/// Milliseconds as an `i64`, or 0 when they do not fit.
pub open spec fn millis_as_i64(ms: u128) -> i64 {
    if ms <= i64::MAX as u128 { ms as i64 } else { 0 }
}

/// Milliseconds as an `i64`, or 0 when they do not fit.
pub fn clamp_millis(ms: u128) -> (r: i64)
    ensures
        r == millis_as_i64(ms),
{
    if ms <= 0x7fff_ffff_ffff_ffffu128 {
        ms as i64
    } else {
        0
    }
}

/// The whole milliseconds since the start of Unix time as an `i64`: 0 when
/// there are none to read (the clock is before 1970) or when they do not
/// fit.
pub open spec fn millis_or_zero_spec(ms: Option<u128>) -> i64 {
    match ms {
        Some(m) => millis_as_i64(m),
        None => 0,
    }
}

/// The value of [`now_ms`] for the milliseconds the clock gave, if any.
pub fn millis_or_zero(ms: Option<u128>) -> (r: i64)
    ensures
        r == millis_or_zero_spec(ms),
{
    match ms {
        Some(m) => clamp_millis(m),
        None => 0,
    }
}

/// The time now in Unix milliseconds, or 0 when the clock reads a time
/// before 1970 (or too far ahead for an `i64`). The clock can read
/// anything, so the contract says what holds of every reading; the value
/// for a given reading is [`millis_or_zero`]'s.
pub fn now_ms() -> (r: i64)
    ensures
        r >= 0,
        exists|ms: Option<u128>| r == millis_or_zero_spec(ms),
{
    let now = clock_now();
    let ms = match since_unix_epoch(&now) {
        Ok(d) => Some(whole_millis(&d)),
        Err(_) => None,
    };
    millis_or_zero(ms)
}

/// How long ago something happened, from the seconds since then, in the
/// words the status bar uses: under a minute is "just now", then whole
/// minutes, whole hours under a day, and whole days.
pub open spec fn elapsed_text(secs: nat) -> Seq<char> {
    let mins = secs / 60;
    if mins == 0 {
        "just now"@
    } else if mins < 60 {
        decimal_spec(mins) + " min ago"@
    } else if mins < 1440 {
        decimal_spec(mins / 60) + " h ago"@
    } else {
        decimal_spec(mins / 1440) + " d ago"@
    }
}

/// Writes [`elapsed_text`].
pub fn elapsed_label(secs: u64) -> (s: String)
    ensures
        s@ == elapsed_text(secs as nat),
{
    let mins = secs / 60;
    let mut s = String::new();
    if mins == 0 {
        s.append("just now");
    } else if mins < 60 {
        push_decimal(&mut s, mins);
        s.append(" min ago");
    } else if mins < 1440 {
        push_decimal(&mut s, mins / 60);
        s.append(" h ago");
    } else {
        push_decimal(&mut s, mins / 1440);
        s.append(" d ago");
    }
    s
}

/// The words for a time `ago_secs` seconds ago; `None` (the time lies in
/// the future: the clock went back) reads as "just now".
pub open spec fn ago_text(ago_secs: Option<u64>) -> Seq<char> {
    elapsed_text(
        match ago_secs {
            Some(x) => x as nat,
            None => 0,
        },
    )
}

/// Writes [`ago_text`].
pub fn elapsed_or_just_now(ago_secs: Option<u64>) -> (s: String)
    ensures
        s@ == ago_text(ago_secs),
{
    match ago_secs {
        Some(x) => elapsed_label(x),
        None => elapsed_label(0),
    }
}

/// How long ago `at` was, as [`elapsed_text`] words it; a time in the
/// future (the clock went back) reads "just now". The clock can read
/// anything, so the contract says what holds of every reading; the words
/// for a given reading are [`elapsed_or_just_now`]'s.
pub fn format_when(at: SystemTime) -> (s: String)
    ensures
        exists|ago: Option<u64>| s@ == #[trigger] ago_text(ago),
{
    let now = clock_now();
    let ago = match duration_between(&now, &at) {
        Ok(d) => Some(whole_secs(&d)),
        Err(_) => None,
    };
    elapsed_or_just_now(ago)
}

} // verus!
