//! ARM Generic Timer arithmetic: counter frequency, uptime in nanoseconds,
//! and the reload value of the ~100 Hz scheduling tick.

use vstd::prelude::*;

verus! {

/// Frequency assumed when `CNTFRQ_EL0` reads zero (uninitialised hardware).
pub const DEFAULT_FREQ_HZ: u64 = 1_000_000;
/// Scheduling ticks per second.
pub const TICK_HZ: u64 = 100;
/// Nanoseconds per second.
pub const NS_PER_SEC: u64 = 1_000_000_000;

/// The EL1 physical timer.
pub struct GenericTimer;

/// The counter frequency, given the value read from `CNTFRQ_EL0`.
pub open spec fn freq_spec(raw: u64) -> u64 {
    if raw == 0 {
        DEFAULT_FREQ_HZ
    } else {
        raw
    }
}

/// Nanoseconds since boot for counter value `count` at `freq` Hz; the
/// product saturates at `u64::MAX` before dividing.
pub open spec fn uptime_spec(count: u64, freq: u64) -> u64 {
    let product: int = count * NS_PER_SEC;
    let saturated: int = if product > u64::MAX { u64::MAX as int } else { product };
    (saturated / (freq as int)) as u64
}

/// The `CNTP_TVAL_EL0` value for a recurring interrupt every `ns`
/// nanoseconds at `freq` Hz, or `None` for `ns == 0`, which disables the
/// timer; a period too long for the register saturates at `u64::MAX`.
pub open spec fn period_for_ns_spec(freq: u64, ns: u64) -> Option<u64> {
    if ns == 0 {
        None
    } else {
        let ticks: int = (ns * freq) / (NS_PER_SEC as int);
        Some(if ticks > u64::MAX { u64::MAX } else { ticks as u64 })
    }
}

/// Counter cycles between two scheduling ticks at `freq` Hz.
pub open spec fn period_ticks_spec(freq: u64) -> u64 {
    freq / TICK_HZ
}

impl GenericTimer {
    /// The counter frequency in Hz, given the value read from `CNTFRQ_EL0`;
    /// a zero reading stands for 1 MHz.
    pub fn freq(raw: u64) -> (f: u64)
        ensures
            f == freq_spec(raw),
            f > 0,
    {
        if raw == 0 {
            DEFAULT_FREQ_HZ
        } else {
            raw
        }
    }

    /// Nanoseconds since boot for the counter value `count` (`CNTPCT_EL0`)
    /// at `freq` Hz.
    pub fn counter_to_ns(count: u64, freq: u64) -> (ns: u64)
        requires
            freq > 0,
        ensures
            ns == uptime_spec(count, freq),
            count * 1_000_000_000 <= u64::MAX ==> ns * freq <= count * 1_000_000_000 < (ns + 1)
                * freq,
            count * 1_000_000_000 > u64::MAX ==> ns * freq <= u64::MAX < (ns + 1) * freq,
    {
        let product = match count.checked_mul(NS_PER_SEC) {
            Some(p) => p,
            None => u64::MAX,
        };
        proof {
            lemma_uptime_exact(count, freq);
        }
        product / freq
    }

    /// The counter cycles of a recurring interrupt every `ns` nanoseconds at
    /// `freq` Hz, or `None` when `ns` is 0 and the timer is to be disabled.
    pub fn period_for_ns(freq: u64, ns: u64) -> (t: Option<u64>)
        ensures
            t == period_for_ns_spec(freq, ns),
    {
        if ns == 0 {
            return None;
        }
        proof {
            assert(0 <= (ns as int) * (freq as int) <= u128::MAX) by (nonlinear_arith)
                requires
                    ns <= u64::MAX,
                    freq <= u64::MAX,
            ;
        }
        let product: u128 = (ns as u128) * (freq as u128);
        let ticks: u128 = product / (NS_PER_SEC as u128);
        if ticks > (u64::MAX as u128) {
            Some(u64::MAX)
        } else {
            Some(ticks as u64)
        }
    }

    /// The `CNTP_TVAL_EL0` reload value for the next scheduling tick.
    pub fn period_ticks(freq: u64) -> (t: u64)
        ensures
            t == period_ticks_spec(freq),
            t * 100 <= freq < (t + 1) * 100,
    {
        freq / TICK_HZ
    }
}

/// The timer interrupt's bookkeeping: count one more tick (wrapping, as the
/// atomic counter does) and return the reload value for the next tick, given
/// the value read from `CNTFRQ_EL0`.
pub fn timer_irq_handler(tick_count: &mut u64, raw_freq: u64) -> (reload: u64)
    ensures
        *final(tick_count) == (if *old(tick_count) == u64::MAX {
            0
        } else {
            (*old(tick_count) + 1) as u64
        }),
        reload == period_ticks_spec(freq_spec(raw_freq)),
        raw_freq != 0 ==> reload * 100 <= raw_freq < (reload + 1) * 100,
        raw_freq == 0 ==> reload == 10_000,
{
    *tick_count = tick_count.wrapping_add(1);
    let freq = GenericTimer::freq(raw_freq);
    GenericTimer::period_ticks(freq)
}

/// Uptime is the elapsed counter cycles in nanoseconds, rounded down:
/// `count * 10^9 / freq` while `count * 10^9` fits in a `u64`, and
/// `u64::MAX / freq` once it does not.
pub proof fn lemma_uptime_exact(count: u64, freq: u64)
    requires
        freq > 0,
    ensures
        count * 1_000_000_000 <= u64::MAX ==> uptime_spec(count, freq) * freq <= count
            * 1_000_000_000 < (uptime_spec(count, freq) + 1) * freq,
        count * 1_000_000_000 > u64::MAX ==> uptime_spec(count, freq) * freq <= u64::MAX < (
        uptime_spec(count, freq) + 1) * freq,
{
    let p: int = count * 1_000_000_000;
    let s: int = if p > u64::MAX { u64::MAX as int } else { p };
    let f = freq as int;
    assert(p >= 0) by (nonlinear_arith)
        requires
            p == count * 1_000_000_000,
            count >= 0,
    ;
    let q = s / f;
    assert(q * f <= s < (q + 1) * f && 0 <= q <= s) by (nonlinear_arith)
        requires
            f > 0,
            s >= 0,
            q == s / f,
    ;
    assert(uptime_spec(count, freq) == q);
}

/// The scheduling tick runs at 100 Hz: its reload value is one hundredth of
/// the counter frequency, rounded down.
pub proof fn lemma_period_is_hundredth(freq: u64)
    ensures
        period_ticks_spec(freq) * 100 <= freq < (period_ticks_spec(freq) + 1) * 100,
{
}

/// Uptime never goes backwards: a later counter value gives at least the
/// same number of nanoseconds.
pub proof fn lemma_uptime_monotonic(c1: u64, c2: u64, freq: u64)
    requires
        c1 <= c2,
        freq > 0,
    ensures
        uptime_spec(c1, freq) <= uptime_spec(c2, freq),
{
    let p1: int = c1 * NS_PER_SEC;
    let p2: int = c2 * NS_PER_SEC;
    assert(p1 <= p2) by (nonlinear_arith)
        requires
            c1 <= c2,
            p1 == c1 * NS_PER_SEC,
            p2 == c2 * NS_PER_SEC,
    ;
    let s1: int = if p1 > u64::MAX { u64::MAX as int } else { p1 };
    let s2: int = if p2 > u64::MAX { u64::MAX as int } else { p2 };
    assert(s1 <= s2);
    let f = freq as int;
    assert(s1 / f <= s2 / f) by (nonlinear_arith)
        requires
            s1 <= s2,
            f > 0,
    ;
    assert(0 <= s1 / f <= u64::MAX) by (nonlinear_arith)
        requires
            0 <= s1 <= u64::MAX,
            f > 0,
    ;
    assert(0 <= s2 / f <= u64::MAX) by (nonlinear_arith)
        requires
            0 <= s2 <= u64::MAX,
            f > 0,
    ;
}


} // verus!
