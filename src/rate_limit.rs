//! The upstream's rate-limit signal and the cooldown derived from it.
//!
//! The upstream answers a limited request with up to three headers: how many
//! seconds to wait (`retry-after`), how many requests remain in the window
//! (`x-ratelimit-remaining`), and when the window resets, in epoch seconds
//! (`x-ratelimit-reset`). The cooldown is how long a route stays blocked.

use vstd::arithmetic::div_mod::lemma_fundamental_div_mod_converse;
use vstd::prelude::*;

verus! {

/// The cooldown when the reset time cannot be read as a date.
pub const DEFAULT_RATE_LIMIT_EXP: i64 = 600;

/// The first second that a UTC date can hold (January 1, 262144 BCE).
pub const MIN_TIMESTAMP: i64 = -8334601228800;

/// The last second that a UTC date can hold (December 31, 262142 CE).
pub const MAX_TIMESTAMP: i64 = 8210266876799;

pub const NANOS_PER_SECOND: u32 = 1_000_000_000;

/// Whether a UTC date exists at this many seconds from the Unix epoch.
pub open spec fn timestamp_in_range(secs: int) -> bool {
    MIN_TIMESTAMP <= secs <= MAX_TIMESTAMP
}

/// A point in time: whole seconds since the Unix epoch and the nanoseconds
/// past that second.
#[derive(Debug, Clone, Copy, PartialEq, Eq)]
pub struct EpochTime {
    pub secs: i64,
    pub nanos: u32,
}

impl EpochTime {
    pub open spec fn wf(&self) -> bool {
        timestamp_in_range(self.secs as int) && self.nanos < NANOS_PER_SECOND
    }

}

/// Relies on chrono's `DateTime::from_timestamp`: with no nanoseconds it gives a
/// date exactly for the seconds within the range of `DateTime<Utc>`.
#[verifier::external_body]
fn is_date_timestamp(secs: i64) -> (r: bool)
    ensures
        r == timestamp_in_range(secs as int),
{
    chrono::DateTime::from_timestamp(secs, 0).is_some()
}

/// The whole seconds from `now` until the epoch second `reset`, truncated
/// toward zero; negative once `reset` has passed.
pub open spec fn seconds_until(reset: int, now: EpochTime) -> int {
    let d = reset * NANOS_PER_SECOND - (now.secs * NANOS_PER_SECOND + now.nanos);
    if d >= 0 {
        d / (NANOS_PER_SECOND as int)
    } else {
        -((-d) / (NANOS_PER_SECOND as int))
    }
}

/// The three signals of a rate-limited reply, each absent where its header was
/// missing or not a number.
#[derive(Debug, Clone, Copy, PartialEq, Eq)]
pub struct GithubRateLimitError {
    /// The seconds to wait before the next request.
    pub retry_after: Option<i64>,
    /// The requests that remain in the current window.
    pub ratelimit_remaining: Option<i64>,
    /// When the current window resets, in UTC epoch seconds.
    pub ratelimit_reset: Option<i64>,
}

/// The cooldown, in seconds, that the signal calls for at time `now`:
/// `retry_after` where given; else none while requests remain or their count
/// is unknown; else the time left until the reset, where one is given; and
/// the default where the reset is no date.
pub open spec fn cooldown(signal: GithubRateLimitError, now: EpochTime) -> int {
    match signal.retry_after {
        Some(seconds) => seconds as int,
        None => match signal.ratelimit_remaining {
            None => 0,
            Some(remaining) => if remaining > 0 {
                0
            } else {
                match signal.ratelimit_reset {
                    None => 0,
                    Some(reset) => if reset == 0 {
                        0
                    } else if timestamp_in_range(reset as int) {
                        seconds_until(reset as int, now)
                    } else {
                        DEFAULT_RATE_LIMIT_EXP as int
                    },
                }
            },
        },
    }
}

/// A reset that lies ahead of a clock partway into a second is that many whole
/// seconds away, less one: the fraction of the current second has passed.
pub proof fn lemma_cooldown_loses_partial_second(signal: GithubRateLimitError, now: EpochTime)
    requires
        now.wf(),
        now.nanos > 0,
        signal.retry_after is None,
        signal.ratelimit_remaining == Some(0i64),
        signal.ratelimit_reset matches Some(reset) && reset != 0 && reset > now.secs && timestamp_in_range(
            reset as int,
        ),
    ensures
        cooldown(signal, now) == signal.ratelimit_reset->0 - now.secs - 1,
{
    let reset = signal.ratelimit_reset->0;
    let n = NANOS_PER_SECOND as int;
    let diff = reset - now.secs;
    let d = reset as int * n - (now.secs as int * n + now.nanos as int);
    assert(d == (diff - 1) * n + (n - now.nanos as int)) by (nonlinear_arith)
        requires
            d == reset as int * n - (now.secs as int * n + now.nanos as int),
            diff == reset - now.secs,
    ;
    assert(d >= 0) by (nonlinear_arith)
        requires
            d == (diff - 1) * n + (n - now.nanos as int),
            diff >= 1,
            n > now.nanos,
    ;
    lemma_fundamental_div_mod_converse(d, n, diff - 1, n - now.nanos as int);
}

/// Whole seconds from `now` until `reset`, both dates.
fn whole_seconds_until(reset: i64, now: EpochTime) -> (r: i64)
    requires
        timestamp_in_range(reset as int),
        now.wf(),
    ensures
        r == seconds_until(reset as int, now),
{
    let diff: i64 = reset - now.secs;
    let ghost n = NANOS_PER_SECOND as int;
    let ghost d = reset as int * n - (now.secs as int * n + now.nanos as int);
    assert(d == diff as int * n - now.nanos as int) by (nonlinear_arith)
        requires
            d == reset as int * n - (now.secs as int * n + now.nanos as int),
            diff == reset - now.secs,
    ;
    if now.nanos > 0 && diff > 0 {
        proof {
            assert(d == (diff as int - 1) * n + (n - now.nanos as int)) by (nonlinear_arith)
                requires
                    d == diff as int * n - now.nanos as int,
            ;
            assert(d >= 0) by (nonlinear_arith)
                requires
                    d == (diff as int - 1) * n + (n - now.nanos as int),
                    diff >= 1,
                    n > now.nanos,
            ;
            lemma_fundamental_div_mod_converse(d, n, diff as int - 1, n - now.nanos as int);
        }
        diff - 1
    } else if diff > 0 || now.nanos == 0 {
        proof {
            if diff >= 0 {
                assert(d == diff as int * n);
                assert(d >= 0) by (nonlinear_arith)
                    requires
                        d == diff as int * n,
                        diff >= 0,
                        n > 0,
                ;
                lemma_fundamental_div_mod_converse(d, n, diff as int, 0);
            } else {
                assert(-d == (-diff) as int * n) by (nonlinear_arith)
                    requires
                        d == diff as int * n,
                ;
                assert(-d > 0) by (nonlinear_arith)
                    requires
                        -d == (-diff) as int * n,
                        diff < 0,
                        n > 0,
                ;
                lemma_fundamental_div_mod_converse(-d, n, -diff as int, 0);
            }
        }
        diff
    } else {
        proof {
            assert(-d == (-diff) as int * n + now.nanos as int) by (nonlinear_arith)
                requires
                    d == diff as int * n - now.nanos as int,
            ;
            assert(-d > 0) by (nonlinear_arith)
                requires
                    -d == (-diff) as int * n + now.nanos as int,
                    diff <= 0,
                    now.nanos > 0,
                    n > 0,
            ;
            lemma_fundamental_div_mod_converse(-d, n, -diff as int, now.nanos as int);
        }
        diff
    }
}

/// The header that gives the seconds to wait.
pub const RETRY_AFTER_HEADER: &'static str = "retry-after";

/// The header that gives the requests left in the window.
pub const RATELIMIT_REMAINING_HEADER: &'static str = "x-ratelimit-remaining";

/// The header that gives the reset time of the window.
pub const RATELIMIT_RESET_HEADER: &'static str = "x-ratelimit-reset";

/// Whether a reply header is one of the three rate-limit headers, the only
/// headers of an upstream error that are handed on to the client.
pub open spec fn is_rate_limit_header_name(name: Seq<char>) -> bool {
    name == RETRY_AFTER_HEADER@ || name == RATELIMIT_REMAINING_HEADER@ || name == RATELIMIT_RESET_HEADER@
}

/// Whether a reply header, named in lower case, is a rate-limit header.
pub fn is_rate_limit_header(name: &str) -> (r: bool)
    ensures
        r == is_rate_limit_header_name(name@),
{
    let name = String::from_str(name);
    let retry_after = String::from_str(RETRY_AFTER_HEADER);
    let remaining = String::from_str(RATELIMIT_REMAINING_HEADER);
    let reset = String::from_str(RATELIMIT_RESET_HEADER);
    name == retry_after || name == remaining || name == reset
}

/// The text of the three rate-limit headers of a reply, each absent where the
/// reply did not carry it.
#[derive(Debug, Clone)]
pub struct RateLimitHeaders {
    pub retry_after: Option<String>,
    pub ratelimit_remaining: Option<String>,
    pub ratelimit_reset: Option<String>,
}

pub open spec fn is_ascii_digit(c: char) -> bool {
    ('0' as int) <= (c as int) <= ('9' as int)
}

/// The value of a run of decimal digits.
pub open spec fn digits_value(s: Seq<char>) -> int
    decreases s.len(),
{
    if s.len() == 0 {
        0
    } else {
        digits_value(s.drop_last()) * 10 + ((s.last() as int) - ('0' as int))
    }
}

/// The number that `text` writes in decimal: an optional sign and one or more
/// ASCII digits, whose value fits in an `i64`.
pub open spec fn decimal_i64(text: Seq<char>) -> Option<i64> {
    let signed = text.len() > 0 && (text[0] == '+' || text[0] == '-');
    let digits = if signed { text.drop_first() } else { text };
    let value = if signed && text[0] == '-' { -digits_value(digits) } else { digits_value(digits) };
    if digits.len() > 0 && (forall|i: int| 0 <= i < digits.len() ==> is_ascii_digit(#[trigger] digits[i]))
        && i64::MIN <= value <= i64::MAX {
        Some(value as i64)
    } else {
        None
    }
}

/// The number in a header, absent where the header is missing or is no number.
pub open spec fn header_number(value: Option<String>) -> Option<i64> {
    match value {
        Some(text) => decimal_i64(text@),
        None => None,
    }
}

/// Relies on `str::parse::<i64>`: an optional `+` or `-` sign followed by one
/// or more ASCII digits, with a value that fits in an `i64`, is read as that
/// number; any other text is an error.
#[verifier::external_body]
fn parse_i64(text: &str) -> (r: Option<i64>)
    ensures
        r == decimal_i64(text@),
{
    text.parse::<i64>().ok()
}

/// The number in a header, if any.
fn read_header_number(value: &Option<String>) -> (r: Option<i64>)
    ensures
        r == header_number(*value),
{
    match value {
        Some(text) => parse_i64(text.as_str()),
        None => None,
    }
}

impl GithubRateLimitError {
    /// The signal that a reply's rate-limit headers carry; a missing header, or
    /// one that is no number, gives an absent signal, never an error.
    pub fn from_response_headers(headers: &RateLimitHeaders) -> (r: GithubRateLimitError)
        ensures
            r.retry_after == header_number(headers.retry_after),
            r.ratelimit_remaining == header_number(headers.ratelimit_remaining),
            r.ratelimit_reset == header_number(headers.ratelimit_reset),
    {
        GithubRateLimitError {
            retry_after: read_header_number(&headers.retry_after),
            ratelimit_remaining: read_header_number(&headers.ratelimit_remaining),
            ratelimit_reset: read_header_number(&headers.ratelimit_reset),
        }
    }

    /// The cooldown, in seconds, at time `now`.
    pub fn get_expiration_time(&self, now: EpochTime) -> (r: i64)
        requires
            now.wf(),
        ensures
            r == cooldown(*self, now),
    {
        if let Some(retry_after) = self.retry_after {
            return retry_after;
        }
        let remaining = match self.ratelimit_remaining {
            Some(value) => value,
            None => i64::MAX,
        };
        if remaining > 0 {
            return 0;
        }
        let reset = match self.ratelimit_reset {
            Some(value) => value,
            None => 0,
        };
        if reset == 0 {
            return 0;
        }
        if is_date_timestamp(reset) {
            whole_seconds_until(reset, now)
        } else {
            DEFAULT_RATE_LIMIT_EXP
        }
    }

    /// Whether the signal blocks the route at time `now`.
    pub fn is_rate_limit_exceeded(&self, now: EpochTime) -> (r: bool)
        requires
            now.wf(),
        ensures
            r == (cooldown(*self, now) > 0),
    {
        self.get_expiration_time(now) > 0
    }

}

} // verus!
