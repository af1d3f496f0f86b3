//! Bounded exponential backoff between retries.

use vstd::prelude::*;
use core::time::Duration;

verus! {

/// Retries of one Drive request before the failure counts.
pub const MAX_RETRY_ATTEMPTS: u32 = 6;

/// The longest pause between two retries, in seconds.
pub const MAX_BACKOFF_SECS: u64 = 64;

/// `2^n`.
pub open spec fn two_pow(n: nat) -> nat
    decreases n,
{
    if n == 0 { 1 } else { 2 * two_pow((n - 1) as nat) }
}

proof fn lemma_two_pow_grows(a: nat, b: nat)
    requires a <= b,
    ensures two_pow(a) <= two_pow(b), two_pow(a) >= 1,
    decreases b,
{
    if b > a {
        lemma_two_pow_grows(a, (b - 1) as nat);
    } else if a > 0 {
        lemma_two_pow_grows((a - 1) as nat, (a - 1) as nat);
    }
}

/// The pause before retry `attempt`: `min(2^attempt + jitter, 64)` seconds, where `2^attempt`
/// stands for `u64::MAX` once it no longer fits and the sum saturates at `u64::MAX`.
pub open spec fn backoff_secs(attempt: u32, jitter_secs: u64) -> u64 {
    let base: nat = if attempt < 64 { two_pow(attempt as nat) } else { u64::MAX as nat };
    let sum: nat = if base + jitter_secs > u64::MAX { u64::MAX as nat } else { (base + jitter_secs) as nat };
    if sum < MAX_BACKOFF_SECS { sum as u64 } else { MAX_BACKOFF_SECS }
}

/// The pause before retry `attempt`, in seconds.
pub fn backoff_delay_secs(attempt: u32, jitter_secs: u64) -> (r: u64)
    ensures r == backoff_secs(attempt, jitter_secs),
{
    if attempt >= 6 {
        proof {
            if attempt < 64 {
                lemma_two_pow_grows(6, attempt as nat);
                reveal_with_fuel(two_pow, 7);
            }
        }
        return MAX_BACKOFF_SECS;
    }
    let mut base: u64 = 1;
    let mut i: u32 = 0;
    while i < attempt
        invariant
            i <= attempt < 6,
            base as nat == two_pow(i as nat),
            base <= 32,
        decreases attempt - i,
    {
        proof { lemma_two_pow_grows(i as nat, 4); reveal_with_fuel(two_pow, 5); }
        base = base * 2;
        i += 1;
    }
    if jitter_secs >= MAX_BACKOFF_SECS - base {
        MAX_BACKOFF_SECS
    } else {
        base + jitter_secs
    }
}

/// A duration of whole seconds: what `Duration::from_secs` returns for `secs`.
pub uninterp spec fn duration_of_secs(secs: u64) -> Duration;

/// Builds a duration of `secs` whole seconds (`Duration::from_secs`).
#[verifier::external_body]
fn duration_from_secs(secs: u64) -> (r: Duration)
    ensures r == duration_of_secs(secs),
{
    Duration::from_secs(secs)
}

/// Bounded exponential backoff: `min(2^attempt + jitter, 64 seconds)`.
pub fn backoff_delay(attempt: u32, jitter_secs: u64) -> (r: Duration)
    ensures r == duration_of_secs(backoff_secs(attempt, jitter_secs)),
{
    duration_from_secs(backoff_delay_secs(attempt, jitter_secs))
}

/// No pause is ever longer than the cap, and waiting longer never shortens it.
pub proof fn lemma_backoff_bounded_and_monotone(attempt: u32, later: u32, jitter_secs: u64)
    requires attempt <= later,
    ensures
        backoff_secs(attempt, jitter_secs) <= MAX_BACKOFF_SECS,
        backoff_secs(attempt, jitter_secs) >= 1,
        backoff_secs(attempt, jitter_secs) <= backoff_secs(later, jitter_secs),
{
    if later < 64 {
        lemma_two_pow_grows(attempt as nat, later as nat);
    } else if attempt < 64 {
        lemma_two_pow_grows(attempt as nat, attempt as nat);
    }
}

/// The pauses grow exponentially: the first, without jitter, is one second; each next one
/// doubles the last until the 64-second cap; and jitter adds its seconds to the pause, up to
/// the cap.
pub proof fn lemma_backoff_doubles(attempt: u32, jitter_secs: u64)
    requires attempt < u32::MAX,
    ensures
        backoff_secs(0, 0) == 1,
        backoff_secs((attempt + 1) as u32, 0) == if 2 * backoff_secs(attempt, 0) < MAX_BACKOFF_SECS {
            2 * backoff_secs(attempt, 0)
        } else {
            MAX_BACKOFF_SECS as int
        },
        backoff_secs(attempt, jitter_secs) == if backoff_secs(attempt, 0) + jitter_secs < MAX_BACKOFF_SECS {
            backoff_secs(attempt, 0) + jitter_secs
        } else {
            MAX_BACKOFF_SECS as int
        },
{
    if attempt + 1 < 64 {
        assert(two_pow((attempt + 1) as nat) == 2 * two_pow(attempt as nat));
    }
    if attempt < 64 {
        lemma_two_pow_grows(0, attempt as nat);
        if attempt >= 6 {
            lemma_two_pow_grows(6, attempt as nat);
            reveal_with_fuel(two_pow, 7);
        }
    }
}

/// A source of extra seconds added to each pause.
pub trait JitterSource {
    fn jitter_secs(&self) -> u64;
}

/// No jitter: every pause is exactly the exponential step.
pub struct ZeroJitter;

impl JitterSource for ZeroJitter {
    fn jitter_secs(&self) -> (r: u64)
        ensures r == 0,
    {
        0
    }
}

/// Jitter of zero or one second taken from the clock.
pub struct SystemJitter;

/// The sub-second part of the time since the Unix epoch, in nanoseconds, or `None` when
/// the clock reads before the epoch (`SystemTime::now().duration_since(UNIX_EPOCH)`, then
/// `Duration::subsec_nanos`).
#[verifier::external_body]
fn clock_subsec_nanos() -> (r: Option<u32>)
    ensures r matches Some(n) ==> n < 1_000_000_000,
{
    match std::time::SystemTime::now().duration_since(std::time::UNIX_EPOCH) {
        Ok(duration) => Some(duration.subsec_nanos()),
        Err(_) => None,
    }
}

/// The jitter a clock reading gives: the parity of its sub-second nanoseconds, and none
/// when the clock reads before the epoch.
pub open spec fn jitter_of(nanos: Option<u32>) -> u64 {
    match nanos {
        Some(n) => (n % 2) as u64,
        None => 0,
    }
}

/// Turns a clock reading into seconds of jitter.
pub fn jitter_from_clock(nanos: Option<u32>) -> (r: u64)
    ensures r == jitter_of(nanos), r <= 1,
{
    match nanos {
        Some(n) => (n % 2) as u64,
        None => 0,
    }
}

impl JitterSource for SystemJitter {
    fn jitter_secs(&self) -> (r: u64)
        ensures r <= 1,
    {
        jitter_from_clock(clock_subsec_nanos())
    }
}

} // verus!
