//! Transport settings that carry no I/O: the reconnection back-off and the
//! serial port settings.
use std::time::Duration;
use vstd::prelude::*;

use crate::types::duration::{
    duration_from_secs, duration_lt, duration_max_nanos, duration_nanos, duration_saturating_mul,
};

verus! {

/// Strategy for reconnection with exponential backoff.
#[derive(Debug, Clone, Copy)]
pub struct RetryStrategy {
    pub min_delay: Duration,
    pub max_delay: Duration,
}

/// `2^min(i, 31)`, the factor of the delay after `i` failures.
pub open spec fn backoff_factor(i: u32) -> nat
    decreases i,
{
    if i == 0 {
        1
    } else if i > 31 {
        backoff_factor(31)
    } else {
        2 * backoff_factor((i - 1) as u32)
    }
}

/// The delay after `i` failed attempts, in nanoseconds: `min_delay` times
/// `2^min(i, 31)` (saturating at the largest duration), capped at `max_delay`.
pub open spec fn backoff_nanos(min_delay: Duration, max_delay: Duration, i: u32) -> int {
    let grown = duration_nanos(min_delay) * backoff_factor(i);
    let saturated = if grown <= duration_max_nanos() {
        grown
    } else {
        duration_max_nanos()
    };
    if duration_nanos(max_delay) < saturated {
        duration_nanos(max_delay) as int
    } else {
        saturated
    }
}

/// The factor as a shift: `1 << min(i, 31)`.
fn backoff_shift(i: u32) -> (r: u32)
    ensures
        r == backoff_factor(i),
{
    let n = if i < 31 { i } else { 31 };
    let mut r: u32 = 1;
    let mut j: u32 = 0;
    proof {
        lemma_backoff_factor_30();
    }
    while j < n
        invariant
            j <= n <= 31,
            n == (if i < 31 { i } else { 31 }),
            r == backoff_factor(j),
            backoff_factor(30) == 0x4000_0000,
        decreases n - j,
    {
        proof {
            lemma_backoff_factor_monotone(j, 30);
        }
        r = r * 2;
        j = j + 1;
    }
    r
}

/// The largest factor below the cap: `2^30`.
proof fn lemma_backoff_factor_30()
    ensures
        backoff_factor(30) == 0x4000_0000,
{
    reveal_with_fuel(backoff_factor, 32);
}

impl Default for RetryStrategy {
    fn default() -> (r: Self)
        ensures
            duration_nanos(r.min_delay) == 1_000_000_000,
            duration_nanos(r.max_delay) == 30_000_000_000,
    {
        RetryStrategy { min_delay: duration_from_secs(1), max_delay: duration_from_secs(30) }
    }
}

impl RetryStrategy {
    /// The delay before the next attempt after `attempt` failed attempts:
    /// `min_delay * 2^min(attempt, 31)`, capped at `max_delay`.
    pub fn backoff_delay(&self, attempt: u32) -> (r: Duration)
        ensures
            duration_nanos(r) == backoff_nanos(self.min_delay, self.max_delay, attempt),
    {
        let delay = duration_saturating_mul(self.min_delay, backoff_shift(attempt));
        if duration_lt(&self.max_delay, &delay) {
            self.max_delay
        } else {
            delay
        }
    }

    /// The first `n` delays of the back-off sequence, the first after one
    /// failed attempt.
    pub fn backoff_delays(&self, n: u32) -> (r: Vec<Duration>)
        ensures
            r.len() == n,
            forall|i: int|
                0 <= i < n ==> duration_nanos(#[trigger] r@[i]) == backoff_nanos(
                    self.min_delay,
                    self.max_delay,
                    i as u32,
                ),
    {
        let mut out: Vec<Duration> = Vec::new();
        let mut i: u32 = 0;
        while i < n
            invariant
                i <= n,
                out.len() == i,
                forall|j: int|
                    0 <= j < i ==> duration_nanos(#[trigger] out@[j]) == backoff_nanos(
                        self.min_delay,
                        self.max_delay,
                        j as u32,
                    ),
            decreases n - i,
        {
            out.push(self.backoff_delay(i));
            i = i + 1;
        }
        out
    }
}

/// No delay of the back-off sequence exceeds `max_delay`, and the sequence
/// never shrinks.
pub proof fn lemma_backoff_bounded_and_growing(min_delay: Duration, max_delay: Duration, i: u32, j: u32)
    requires
        i <= j,
    ensures
        backoff_nanos(min_delay, max_delay, j) <= duration_nanos(max_delay),
        backoff_nanos(min_delay, max_delay, i) <= backoff_nanos(min_delay, max_delay, j),
{
    lemma_backoff_factor_monotone(i, j);
    let m = duration_nanos(min_delay) as int;
    let fi = backoff_factor(i) as int;
    let fj = backoff_factor(j) as int;
    assert(m * fi <= m * fj) by (nonlinear_arith)
        requires
            0 <= m,
            fi <= fj,
    ;
}

/// The first delay is `min_delay`, or `max_delay` where that is shorter.
/// (Every duration spans at most `Duration::MAX`, which `requires` restates.)
pub proof fn lemma_backoff_starts_at_min(min_delay: Duration, max_delay: Duration)
    requires
        duration_nanos(min_delay) <= duration_max_nanos(),
    ensures
        backoff_nanos(min_delay, max_delay, 0) == (if duration_nanos(max_delay) < duration_nanos(min_delay) {
            duration_nanos(max_delay) as int
        } else {
            duration_nanos(min_delay) as int
        }),
{
    assert(backoff_factor(0) == 1);
}

/// The factor never shrinks.
proof fn lemma_backoff_factor_monotone(i: u32, j: u32)
    requires
        i <= j,
    ensures
        backoff_factor(i) <= backoff_factor(j),
    decreases j,
{
    if j > i {
        if j > 31 {
            if i >= 31 {
            } else {
                lemma_backoff_factor_monotone(i, 31);
            }
        } else {
            lemma_backoff_factor_monotone(i, (j - 1) as u32);
        }
    }
}

/// Serial port data bits configuration.
#[derive(Debug, Clone, Copy, PartialEq, Eq, Structural)]
pub enum DataBits {
    Five,
    Six,
    Seven,
    Eight,
}

/// Serial port parity configuration.
#[derive(Debug, Clone, Copy, PartialEq, Eq, Structural)]
pub enum Parity {
    /// No parity bit.
    NoParity,
    Odd,
    Even,
}

/// Serial port stop bits configuration.
#[derive(Debug, Clone, Copy, PartialEq, Eq, Structural)]
pub enum StopBits {
    One,
    Two,
}

/// Configuration for a serial port transport.
#[derive(Debug, Clone)]
pub struct SerialConfig {
    pub path: String,
    pub baud_rate: u32,
    pub data_bits: DataBits,
    pub parity: Parity,
    pub stop_bits: StopBits,
}

/// Connector that opens a local serial port.
#[derive(Debug, Clone)]
pub struct SerialConnector {
    pub config: SerialConfig,
}

impl SerialConnector {
    pub fn new(config: SerialConfig) -> (r: Self)
        ensures
            r.config == config,
    {
        SerialConnector { config }
    }
}

} // verus!
