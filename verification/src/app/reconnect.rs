//! Bounded exponential backoff for reconnect attempts.
//!
//! attempt=1 → ~1 s, attempt=2 → ~2 s, …, attempt=6+ → ~30 s (capped), each
//! with ±25% jitter taken from the sub-second part of the system clock, and
//! never below 500 ms.
use vstd::prelude::*;

verus! {

/// Base delay of the first attempt, in milliseconds.
pub const BASE_MS: u64 = 1_000;
/// Cap on the un-jittered delay, in milliseconds.
pub const MAX_MS: u64 = 30_000;
/// Floor on the jittered delay, in milliseconds.
pub const MIN_MS: u64 = 500;

/// A wait before the next attempt, in whole milliseconds.
#[derive(Debug, Clone, Copy, PartialEq, Eq, Structural)]
pub struct Delay {
    pub millis: u64,
}

impl Delay {
    /// The delay in milliseconds (`Duration::as_millis`).
    pub fn as_millis(&self) -> (r: u128)
        ensures
            r == self.millis,
    {
        self.millis as u128
    }
}

/// The un-jittered delay of an attempt: `1000 * 2^(attempt-1)` ms for
/// attempts up to 6 (attempt 0 counts as 1), capped at 30 s.
pub open spec fn base_delay_ms(attempt: u32) -> int {
    let exp: int = if attempt == 0 {
        0
    } else if attempt - 1 < 5 {
        attempt - 1
    } else {
        5
    };
    let base: int = if exp == 0 {
        1000
    } else if exp == 1 {
        2000
    } else if exp == 2 {
        4000
    } else if exp == 3 {
        8000
    } else if exp == 4 {
        16000
    } else {
        32000
    };
    if base < MAX_MS {
        base
    } else {
        MAX_MS as int
    }
}

/// The delay of an attempt with jitter drawn from `nanos`: the base plus
/// `nanos mod (base/2)` minus `base/4`, never below 500 ms.
pub open spec fn jittered_ms(attempt: u32, nanos: u64) -> int {
    let capped = base_delay_ms(attempt);
    let quarter = capped / 4;
    let jitter: int = if quarter > 0 {
        (nanos as int % (quarter * 2)) - quarter
    } else {
        0
    };
    if capped + jitter < MIN_MS {
        MIN_MS as int
    } else {
        capped + jitter
    }
}

/// Returns `jittered_ms(attempt, nanos)`.
pub fn backoff_ms(attempt: u32, nanos: u64) -> (r: u64)
    ensures
        r == jittered_ms(attempt, nanos),
{
    let exp: u32 = if attempt == 0 {
        0
    } else if attempt - 1 < 5 {
        attempt - 1
    } else {
        5
    };
    let mut base: u64 = BASE_MS;
    let mut k: u32 = 0;
    while k < exp
        invariant
            k <= exp <= 5,
            base == BASE_MS * (if k == 0 {
                1int
            } else if k == 1 {
                2
            } else if k == 2 {
                4
            } else if k == 3 {
                8
            } else if k == 4 {
                16
            } else {
                32
            }),
        decreases exp - k,
    {
        base = base * 2;
        k = k + 1;
    }
    let capped: u64 = if base < MAX_MS { base } else { MAX_MS };
    let quarter: u64 = capped / 4;
    let ms: u64 = if quarter > 0 {
        let j: u64 = nanos % (quarter * 2);
        if capped + j < MIN_MS + quarter {
            MIN_MS
        } else {
            capped + j - quarter
        }
    } else if capped < MIN_MS {
        MIN_MS
    } else {
        capped
    };
    ms
}

/// `std::time::SystemTime`, carried opaquely.
#[verifier::external_type_specification]
#[verifier::external_body]
pub struct ExSystemTime(std::time::SystemTime);

/// Reads the system clock (`SystemTime::now`); nothing is claimed about the
/// time it returns.
#[verifier::external_body]
fn system_now() -> (r: std::time::SystemTime) {
    std::time::SystemTime::now()
}

/// The time elapsed since the UNIX epoch (`SystemTime::duration_since`
/// with `UNIX_EPOCH`), `None` when the clock reads before the epoch;
/// nothing is claimed about the duration.
#[verifier::external_body]
fn since_epoch(t: &std::time::SystemTime) -> (r: Option<std::time::Duration>) {
    t.duration_since(std::time::UNIX_EPOCH).ok()
}

/// The sub-second part of a duration in nanoseconds
/// (`Duration::subsec_nanos`), which its documentation bounds below one
/// billion.
#[verifier::external_body]
fn subsec_nanos(d: &std::time::Duration) -> (r: u32)
    ensures
        r < 1_000_000_000,
{
    d.subsec_nanos()
}

/// The sub-second nanoseconds of the system clock since the UNIX epoch;
/// `None` when the clock reads before the epoch.
pub(crate) fn clock_subsec_nanos() -> (r: Option<u32>)
    ensures
        r matches Some(n) ==> n < 1_000_000_000,
{
    let now = system_now();
    match since_epoch(&now) {
        Some(d) => Some(subsec_nanos(&d)),
        None => None,
    }
}

/// Bounded exponential backoff with ±25% jitter taken from the clock's
/// sub-second nanoseconds (0 when the clock cannot be read).
pub fn backoff_delay(attempt: u32) -> (r: Delay)
    ensures
        exists|nanos: u64| nanos < 1_000_000_000 && r.millis == #[trigger] jittered_ms(attempt, nanos),
{
    let nanos: u64 = match clock_subsec_nanos() {
        Some(n) => n as u64,
        None => 0,
    };
    let ms = backoff_ms(attempt, nanos);
    assert(ms == jittered_ms(attempt, nanos));
    Delay { millis: ms }
}

/// Every delay lies between 500 ms and 30 s plus a quarter (37.5 s).
pub proof fn lemma_backoff_bounded(attempt: u32, nanos: u64)
    ensures
        MIN_MS <= jittered_ms(attempt, nanos) <= MAX_MS + MAX_MS / 4,
{
}

/// The jittered delay of an attempt stays within a quarter of its base.
pub proof fn lemma_backoff_near_base(attempt: u32, nanos: u64)
    ensures
        base_delay_ms(attempt) - base_delay_ms(attempt) / 4 <= jittered_ms(attempt, nanos),
        jittered_ms(attempt, nanos) < base_delay_ms(attempt) + base_delay_ms(attempt) / 4,
{
}

/// Until the cap is reached, a later attempt always waits longer than an
/// earlier one, whatever jitter each draws.
pub proof fn lemma_backoff_grows(a: u32, b: u32, na: u64, nb: u64)
    requires
        1 <= a < b,
        a < 6,
    ensures
        jittered_ms(a, na) < jittered_ms(b, nb),
{
    lemma_backoff_near_base(a, na);
    lemma_backoff_near_base(b, nb);
    assert(base_delay_ms(a) + base_delay_ms(a) / 4 <= base_delay_ms(b) - base_delay_ms(b) / 4);
}

/// From the sixth attempt on, the base delay stays at the 30 s cap.
pub proof fn lemma_backoff_capped(attempt: u32)
    requires
        attempt >= 6,
    ensures
        base_delay_ms(attempt) == MAX_MS,
{
}

} // verus!
