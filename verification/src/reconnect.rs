//! The agent daemon's reconnection policy: exponential backoff with a cap
//! and random jitter between attempts.

use vstd::prelude::*;

verus! {

/// Reconnection settings. The backoff factor is a whole number: the
/// daemon's factor is 2, and every delay it multiplies is a whole number of
/// milliseconds below the cap, so whole-number arithmetic gives the same
/// delays.
pub struct ReconnectConfig {
    /// Delay before the first reconnection attempt, in milliseconds.
    pub initial_delay_ms: u64,
    /// Cap on the delay, in milliseconds.
    pub max_delay_ms: u64,
    /// Factor applied to the delay after each failed attempt.
    pub backoff_multiplier: u64,
    /// Jitter added to a delay, as a percentage of that delay.
    pub jitter_percent: u8,
}

impl ReconnectConfig {
    /// The daemon's settings: start at one second, double, cap at one
    /// minute, add up to 20% jitter.
    pub fn daemon_default() -> (config: Self)
        ensures
            config.initial_delay_ms == 1000,
            config.max_delay_ms == 60000,
            config.backoff_multiplier == 2,
            config.jitter_percent == 20,
    {
        ReconnectConfig {
            initial_delay_ms: 1000,
            max_delay_ms: 60000,
            backoff_multiplier: 2,
            jitter_percent: 20,
        }
    }
}

/// The delay after one more failure: the current delay times the factor,
/// saturating at `u64::MAX`, then capped.
pub open spec fn next_delay(config: ReconnectConfig, delay: int) -> int {
    let grown = delay * config.backoff_multiplier;
    let saturated = if grown > u64::MAX as int {
        u64::MAX as int
    } else {
        grown
    };
    if saturated < config.max_delay_ms {
        saturated
    } else {
        config.max_delay_ms as int
    }
}

/// The delay that is current after `failures` failed attempts.
pub open spec fn backoff_delay(config: ReconnectConfig, failures: nat) -> int
    decreases failures,
{
    if failures == 0 {
        config.initial_delay_ms as int
    } else {
        next_delay(config, backoff_delay(config, (failures - 1) as nat))
    }
}

/// The exclusive upper bound of the jitter for a delay: the jitter
/// percentage of it, rounded down and saturating at `u64::MAX`.
pub open spec fn jitter_range(delay: int, percent: int) -> int {
    let r = delay * percent / 100;
    if r > u64::MAX as int {
        u64::MAX as int
    } else {
        r
    }
}

/// Calls `rand::Rng::random_range(0..bound)` on `rand::rng()`. Claimed: the
/// value lies in `0..bound`; which one depends on chance. The call panics on
/// an empty range, which the `requires` rules out.
#[verifier::external_body]
fn random_below(bound: u64) -> (value: u64)
    requires
        bound > 0,
    ensures
        value < bound,
{
    rand::Rng::random_range(&mut rand::rng(), 0..bound)
}

/// The jitter range for `delay` at `percent` percent.
pub fn jitter_range_for(delay: u64, percent: u8) -> (range: u64)
    ensures
        range == jitter_range(delay as int, percent as int),
{
    assert((delay as u128) * (percent as u128) <= u64::MAX as u128 * 255) by (nonlinear_arith)
        requires
            percent <= 255,
    ;
    let r: u128 = (delay as u128) * (percent as u128) / 100;
    if r > u64::MAX as u128 {
        u64::MAX
    } else {
        r as u64
    }
}

/// A random jitter for `delay`: below the jitter range, or zero when the
/// range is empty.
pub fn calculate_jitter(config: &ReconnectConfig, delay: u64) -> (jitter: u64)
    ensures
        jitter_range(delay as int, config.jitter_percent as int) == 0 ==> jitter == 0,
        jitter_range(delay as int, config.jitter_percent as int) > 0 ==> jitter < jitter_range(
            delay as int,
            config.jitter_percent as int,
        ),
{
    let range = jitter_range_for(delay, config.jitter_percent);
    if range > 0 {
        random_below(range)
    } else {
        0
    }
}

/// The reconnection loop's state.
pub struct ReconnectState {
    /// Failed attempts so far.
    pub retry_count: u32,
    /// Delay to wait (before jitter) after the next failure.
    pub current_delay_ms: u64,
}

impl ReconnectState {
    /// The delay matches the number of failures under `config`.
    pub open spec fn tracks(&self, config: ReconnectConfig) -> bool {
        self.current_delay_ms == backoff_delay(config, self.retry_count as nat)
    }

    /// No failures yet; the delay is the initial one.
    pub fn new(config: &ReconnectConfig) -> (state: Self)
        ensures
            state.retry_count == 0,
            state.current_delay_ms == config.initial_delay_ms,
            state.tracks(*config),
    {
        ReconnectState { retry_count: 0, current_delay_ms: config.initial_delay_ms }
    }

    /// Decides how long to wait after a connection ends, whether it failed
    /// or the centre closed it: the daemon always reconnects. The attempt
    /// counts one more retry, the wait is the current delay plus a random
    /// jitter, and the delay grows by the factor up to the cap.
    pub fn after_attempt(&mut self, config: &ReconnectConfig) -> (wait_ms: u64)
        requires
            old(self).retry_count < u32::MAX,
            old(self).current_delay_ms + jitter_range(
                old(self).current_delay_ms as int,
                config.jitter_percent as int,
            ) <= u64::MAX,
        ensures
            final(self).retry_count == old(self).retry_count + 1,
            final(self).current_delay_ms == next_delay(*config, old(self).current_delay_ms as int),
            old(self).current_delay_ms <= wait_ms,
            jitter_range(old(self).current_delay_ms as int, config.jitter_percent as int) == 0
                ==> wait_ms == old(self).current_delay_ms,
            jitter_range(old(self).current_delay_ms as int, config.jitter_percent as int) > 0
                ==> wait_ms < old(self).current_delay_ms + jitter_range(
                old(self).current_delay_ms as int,
                config.jitter_percent as int,
            ),
            old(self).tracks(*config) ==> final(self).tracks(*config),
    {
        self.retry_count = self.retry_count + 1;
        let jitter = calculate_jitter(config, self.current_delay_ms);
        let wait_ms = self.current_delay_ms + jitter;
        let grown = match self.current_delay_ms.checked_mul(config.backoff_multiplier) {
            Some(g) => g,
            None => u64::MAX,
        };
        self.current_delay_ms = if grown < config.max_delay_ms {
            grown
        } else {
            config.max_delay_ms
        };
        wait_ms
    }
}

/// `m` to the power `n`.
pub open spec fn power(m: int, n: nat) -> int
    decreases n,
{
    if n == 0 {
        1
    } else {
        m * power(m, (n - 1) as nat)
    }
}

proof fn lemma_power_positive(m: int, n: nat)
    requires
        m >= 1,
    ensures
        power(m, n) >= 1,
    decreases n,
{
    if n > 0 {
        lemma_power_positive(m, (n - 1) as nat);
        assert(m * power(m, (n - 1) as nat) >= 1) by (nonlinear_arith)
            requires
                m >= 1,
                power(m, (n - 1) as nat) >= 1,
        ;
    }
}

/// The delay never exceeds the cap, provided the initial delay does not.
pub proof fn law_backoff_capped(config: ReconnectConfig, failures: nat)
    requires
        config.initial_delay_ms <= config.max_delay_ms,
    ensures
        0 <= backoff_delay(config, failures) <= config.max_delay_ms,
    decreases failures,
{
    if failures > 0 {
        law_backoff_capped(config, (failures - 1) as nat);
        let d = backoff_delay(config, (failures - 1) as nat);
        assert(d * config.backoff_multiplier >= 0) by (nonlinear_arith)
            requires
                d >= 0,
        ;
    }
}

/// With a factor of at least one, each failure keeps or grows the delay.
pub proof fn law_backoff_monotone(config: ReconnectConfig, failures: nat)
    requires
        config.initial_delay_ms <= config.max_delay_ms,
        config.backoff_multiplier >= 1,
    ensures
        backoff_delay(config, failures) <= backoff_delay(config, failures + 1),
{
    law_backoff_capped(config, failures);
    let d = backoff_delay(config, failures);
    assert(d * config.backoff_multiplier >= d) by (nonlinear_arith)
        requires
            d >= 0,
            config.backoff_multiplier >= 1,
    ;
    assert(backoff_delay(config, failures + 1) == next_delay(config, d));
}

/// Exponential backoff: after `n` failures the delay is the initial delay
/// times the factor to the `n`-th power, capped at the maximum (when the
/// capped delay times the factor still fits in a `u64`).
pub proof fn law_backoff_exponential(config: ReconnectConfig, failures: nat)
    requires
        config.initial_delay_ms <= config.max_delay_ms,
        config.backoff_multiplier >= 1,
        config.max_delay_ms * config.backoff_multiplier <= u64::MAX,
    ensures
        backoff_delay(config, failures) == if config.initial_delay_ms * power(
            config.backoff_multiplier as int,
            failures,
        ) < config.max_delay_ms {
            config.initial_delay_ms * power(config.backoff_multiplier as int, failures)
        } else {
            config.max_delay_ms as int
        },
    decreases failures,
{
    let i = config.initial_delay_ms as int;
    let m = config.backoff_multiplier as int;
    let cap = config.max_delay_ms as int;
    if failures == 0 {
        assert(power(m, 0) == 1);
        assert(i * power(m, 0) == i * 1);
    } else {
        let n = (failures - 1) as nat;
        law_backoff_exponential(config, n);
        law_backoff_capped(config, n);
        lemma_power_positive(m, n);
        let d = backoff_delay(config, n);
        let p = power(m, n);
        assert(power(m, failures) == m * p);
        assert(i * (m * p) == (i * p) * m) by (nonlinear_arith);
        assert(d * m <= cap * m) by (nonlinear_arith)
            requires
                0 <= d <= cap,
                m >= 1,
        ;
        if i * p < cap {
            assert(d == i * p);
        } else {
            assert(d == cap);
            assert(cap * m >= cap) by (nonlinear_arith)
                requires
                    cap >= 0,
                    m >= 1,
            ;
            assert((i * p) * m >= i * p) by (nonlinear_arith)
                requires
                    i * p >= 0,
                    m >= 1,
            ;
            assert(i * p >= 0) by (nonlinear_arith)
                requires
                    i >= 0,
                    p >= 1,
            ;
        }
    }
}

} // verus!
