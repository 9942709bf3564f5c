//! The integer side of the confidence model.
//!
//! Confidence is `(S - 4H) * 0.5^(days / 90)`, where `S` counts successful
//! validations, `H` harmful outcomes and `days` the time since the last
//! validation (never negative). The weighted base `S - 4H`, the elapsed time
//! and the anti-pattern rule are computed and proved here; the exponential
//! factor is floating point and is applied by the caller.
use vstd::prelude::*;

verus! {

/// Confidence halves every this many days without validation.
pub const HALF_LIFE_DAYS: u64 = 90;

/// One harmful outcome cancels this many successes.
pub const HARM_MULTIPLIER: i64 = 4;

/// Seconds in a day, for converting elapsed seconds into days.
pub const SECONDS_PER_DAY: u64 = 86_400;

/// A rule with at least this many failures is an anti-pattern.
pub const ANTI_PATTERN_FAILURES: u32 = 3;

/// The format in which SQLite's `datetime('now')` writes timestamps.
pub const SQLITE_DATETIME_FORMAT: &'static str = "%Y-%m-%d %H:%M:%S";

/// The undecayed score `S - 4H`.
pub open spec fn spec_base(success_count: int, failure_count: int) -> int {
    success_count - HARM_MULTIPLIER * failure_count
}

/// Nanoseconds in a second.
pub const NANOS_PER_SECOND: u32 = 1_000_000_000;

/// A moment given as whole seconds of a UNIX timestamp and the nanoseconds
/// past them, in nanoseconds.
pub open spec fn spec_nanos(secs: int, nanos: int) -> int {
    secs * 1_000_000_000 + nanos
}

/// The whole seconds from the last validation to `now`, each moment given as
/// seconds and nanoseconds, the fraction dropped; a validation in the future
/// counts as none having elapsed (and a span beyond `u64::MAX` seconds as
/// that many).
pub open spec fn spec_elapsed(last_secs: int, last_nanos: int, now_secs: int, now_nanos: int) -> int {
    let d = spec_nanos(now_secs, now_nanos) - spec_nanos(last_secs, last_nanos);
    if d <= 0 {
        0
    } else if d / 1_000_000_000 > u64::MAX {
        u64::MAX as int
    } else {
        d / 1_000_000_000
    }
}

/// Whether a rule with this many failures is an anti-pattern.
pub open spec fn spec_is_anti_pattern(failure_count: int) -> bool {
    failure_count >= ANTI_PATTERN_FAILURES
}

/// The undecayed score `S - 4H` of a rule; negative when failures dominate.
pub fn confidence_base(success_count: u32, failure_count: u32) -> (b: i64)
    ensures
        b == spec_base(success_count as int, failure_count as int),
{
    success_count as i64 - HARM_MULTIPLIER * failure_count as i64
}

/// Whole seconds elapsed from the last validation to `now` (each a UNIX
/// timestamp in seconds and the nanoseconds past them), or zero when the
/// last validation is not before `now`.
pub fn elapsed_seconds(last_secs: i64, last_nanos: u32, now_secs: i64, now_nanos: u32) -> (d: u64)
    ensures
        d == spec_elapsed(last_secs as int, last_nanos as int, now_secs as int, now_nanos as int),
{
    let span: i128 = (now_secs as i128 - last_secs as i128) * 1_000_000_000i128
        + (now_nanos as i128 - last_nanos as i128);
    if span <= 0 {
        return 0;
    }
    let whole: i128 = span / 1_000_000_000i128;
    if whole > u64::MAX as i128 {
        u64::MAX
    } else {
        whole as u64
    }
}

/// Whether a rule with `failure_count` harmful outcomes is an anti-pattern.
pub fn is_anti_pattern(failure_count: u32) -> (b: bool)
    ensures
        b == spec_is_anti_pattern(failure_count as int),
{
    failure_count >= ANTI_PATTERN_FAILURES
}

/// What `chrono::DateTime::parse_from_rfc3339` makes of `text`, as a UNIX
/// timestamp in seconds and the nanoseconds past them; `None` where it does
/// not parse.
pub uninterp spec fn rfc3339_instant(text: Seq<char>) -> Option<(i64, u32)>;

/// What `chrono::NaiveDateTime::parse_from_str` makes of `text` with the
/// format `format`, read as UTC, as a UNIX timestamp in seconds and the
/// nanoseconds past them; `None` where it does not parse.
pub uninterp spec fn naive_datetime_instant(text: Seq<char>, format: Seq<char>) -> Option<(i64, u32)>;

/// Calls `chrono::DateTime::parse_from_rfc3339` and takes the UNIX timestamp
/// of the result (`DateTime::timestamp` and `timestamp_subsec_nanos`). The
/// result is named, not described.
#[verifier::external_body]
fn parse_rfc3339_instant(text: &str) -> (r: Option<(i64, u32)>)
    ensures
        r == rfc3339_instant(text@),
{
    match chrono::DateTime::parse_from_rfc3339(text) {
        Ok(d) => Some((d.timestamp(), d.timestamp_subsec_nanos())),
        Err(_) => None,
    }
}

/// Calls `chrono::NaiveDateTime::parse_from_str` and takes the UNIX timestamp
/// of the result read as UTC (`and_utc()`, then `timestamp` and
/// `timestamp_subsec_nanos`). The result is named, not described.
#[verifier::external_body]
fn parse_naive_datetime_instant(text: &str, format: &str) -> (r: Option<(i64, u32)>)
    ensures
        r == naive_datetime_instant(text@, format@),
{
    match chrono::NaiveDateTime::parse_from_str(text, format) {
        Ok(d) => Some((d.and_utc().timestamp(), d.and_utc().timestamp_subsec_nanos())),
        Err(_) => None,
    }
}

/// The moment of a rule's last validation as stored: RFC 3339 first, then
/// SQLite's `datetime('now')` form; a missing or unreadable value counts as
/// `now`. Moments are UNIX timestamps in seconds and nanoseconds past them.
pub open spec fn spec_last_validated(text: Option<Seq<char>>, now: (i64, u32)) -> (i64, u32) {
    match text {
        None => now,
        Some(t) => match rfc3339_instant(t) {
            Some(s) => s,
            None => match naive_datetime_instant(t, SQLITE_DATETIME_FORMAT@) {
                Some(s) => s,
                None => now,
            },
        },
    }
}

/// Read a stored last-validation timestamp as a UNIX timestamp in seconds
/// and the nanoseconds past them.
pub fn last_validated_instant(text: Option<&str>, now_secs: i64, now_nanos: u32) -> (s: (i64, u32))
    ensures
        s == spec_last_validated(
            match text { Some(t) => Some(t@), None => None },
            (now_secs, now_nanos),
        ),
{
    match text {
        None => (now_secs, now_nanos),
        Some(t) => match parse_rfc3339_instant(t) {
            Some(s) => s,
            None => match parse_naive_datetime_instant(t, SQLITE_DATETIME_FORMAT) {
                Some(s) => s,
                None => (now_secs, now_nanos),
            },
        },
    }
}

/// One harmful outcome cancels exactly four successes.
pub proof fn lemma_harm_cancels_four_successes(success_count: nat, failure_count: nat)
    ensures
        spec_base(success_count + 4int, failure_count + 1int) == spec_base(success_count as int, failure_count as int),
{
}

/// More successes never lower the score and more failures never raise it.
pub proof fn lemma_base_monotone(s1: nat, f1: nat, s2: nat, f2: nat)
    requires
        s1 <= s2,
        f2 <= f1,
    ensures
        spec_base(s1 as int, f1 as int) <= spec_base(s2 as int, f2 as int),
{
}

/// A validation recorded at or after `now` decays nothing, time since a
/// validation is never negative, and between moments with the same fraction
/// of a second it is the difference of their seconds.
pub proof fn lemma_elapsed_clamped(last_secs: int, last_nanos: int, now_secs: int, now_nanos: int)
    ensures
        spec_elapsed(last_secs, last_nanos, now_secs, now_nanos) >= 0,
        spec_nanos(last_secs, last_nanos) >= spec_nanos(now_secs, now_nanos) ==>
            spec_elapsed(last_secs, last_nanos, now_secs, now_nanos) == 0,
        last_nanos == now_nanos && last_secs <= now_secs && now_secs - last_secs <= u64::MAX ==>
            spec_elapsed(last_secs, last_nanos, now_secs, now_nanos) == now_secs - last_secs,
{
    let k = now_secs - last_secs;
    assert((k * 1_000_000_000) / 1_000_000_000 == k) by (nonlinear_arith);
}

/// The score is the number of successes less four times the number of
/// failures, for all counts: a fresh rule with `s` successes and no failures
/// scores `s`, and each failure weighs `-4`.
pub proof fn lemma_base_is_weighted_difference(success_count: int, failure_count: int)
    ensures
        spec_base(success_count, failure_count) == success_count - 4 * failure_count,
        spec_base(success_count, 0) == success_count,
        spec_base(0, failure_count) == -4 * failure_count,
{
}

/// Scores add up: the score of combined counts is the sum of the scores.
pub proof fn lemma_base_additive(s1: int, f1: int, s2: int, f2: int)
    ensures
        spec_base(s1 + s2, f1 + f2) == spec_base(s1, f1) + spec_base(s2, f2),
{
}

/// Once a rule is an anti-pattern, further failures keep it one.
pub proof fn lemma_anti_pattern_monotone(f1: nat, f2: nat)
    requires
        f1 <= f2,
        spec_is_anti_pattern(f1 as int),
    ensures
        spec_is_anti_pattern(f2 as int),
{
}

} // verus!
