//! The exponential backoff calculation.
//!
//! Intervals and delays are whole milliseconds. The randomization factor and
//! the multiplier are given in thousandths, so that 500 stands for one half and
//! 1500 for one and a half. A random sample is a `u32` read as the fraction
//! `sample / 2^32` of the unit interval.

use vstd::arithmetic::div_mod::{lemma_fundamental_div_mod, lemma_mod_bound};
use vstd::prelude::*;

verus! {

/// The denominator of the randomization factor and of the multiplier.
pub const PER_MILLE: u32 = 1000;

/// The first retry interval of every policy that `BackoffPolicy::new` makes.
pub const DEFAULT_INITIAL_INTERVAL: u64 = 500;

/// The randomization factor of the default policy: one half.
pub const DEFAULT_RANDOMIZATION_FACTOR: u32 = 500;

/// The multiplier of the default policy: one and a half.
pub const DEFAULT_MULTIPLIER: u32 = 1500;

/// The largest retry interval of the default policy: one minute.
pub const DEFAULT_MAX_INTERVAL: u64 = 60_000;

/// The number of distinct random samples, `2^32`.
pub const SAMPLE_RANGE: u64 = 0x1_0000_0000;

/// The parameters of an exponential backoff.
///
/// Every combination of field values is accepted. A randomization factor
/// above one counts as one, a multiplier below one counts as one, and an
/// initial interval above the maximum counts as the maximum: see `factor`,
/// `growth` and `start`.
#[derive(Copy, Clone, Debug, PartialEq, Eq, Structural)]
pub struct BackoffPolicy {
    /// The retry interval after a reset, in milliseconds.
    pub initial_interval: u64,
    /// The half-width of the window round the interval, in thousandths of it.
    pub randomization_factor: u32,
    /// The growth of the interval from one retry to the next, in thousandths.
    pub multiplier: u32,
    /// The interval that is never exceeded, in milliseconds.
    pub max_interval: u64,
}

impl BackoffPolicy {
    /// The randomization factor in effect: the configured one, at most one.
    pub open spec fn factor(self) -> int {
        if self.randomization_factor > PER_MILLE {
            PER_MILLE as int
        } else {
            self.randomization_factor as int
        }
    }

    /// The multiplier in effect: the configured one, at least one.
    pub open spec fn growth(self) -> int {
        if self.multiplier < PER_MILLE {
            PER_MILLE as int
        } else {
            self.multiplier as int
        }
    }

    /// The interval in effect after a reset: the configured one, at most the
    /// maximum.
    pub open spec fn start(self) -> int {
        if self.initial_interval > self.max_interval {
            self.max_interval as int
        } else {
            self.initial_interval as int
        }
    }

    /// The half-width of the window round `interval`, rounded down.
    pub open spec fn spread(self, interval: int) -> int {
        (interval * self.factor()) / (PER_MILLE as int)
    }

    /// The shortest delay that can be drawn round `interval`.
    pub open spec fn lowest(self, interval: int) -> int {
        interval - self.spread(interval)
    }

    /// The longest delay that can be drawn round `interval`.
    pub open spec fn highest(self, interval: int) -> int {
        if interval + self.spread(interval) > u64::MAX {
            u64::MAX as int
        } else {
            interval + self.spread(interval)
        }
    }

    /// The number of whole delays in the window round `interval`.
    pub open spec fn width(self, interval: int) -> int {
        self.highest(interval) - self.lowest(interval) + 1
    }

    /// The delay that `sample` picks from the window round `interval`: the
    /// whole delays of the window share the samples evenly.
    pub open spec fn delay(self, interval: int, sample: int) -> int {
        self.lowest(interval) + ((self.highest(interval) - self.lowest(interval) + 1) * sample) / (
        SAMPLE_RANGE as int)
    }

    /// The interval that follows `interval`: multiplied, rounded up to the
    /// whole millisecond, and held at the maximum. Because it is rounded up,
    /// a multiplier above one gains on every interval above zero.
    pub open spec fn grown(self, interval: int) -> int {
        if (interval * self.growth() + PER_MILLE - 1) / (PER_MILLE as int) >= self.max_interval {
            self.max_interval as int
        } else {
            (interval * self.growth() + PER_MILLE - 1) / (PER_MILLE as int)
        }
    }

    /// The interval in effect `n` retries after the interval `first`.
    pub open spec fn ceiling_from(self, first: int, n: nat) -> int
        decreases n,
    {
        if n == 0 {
            first
        } else {
            self.grown(self.ceiling_from(first, (n - 1) as nat))
        }
    }

    /// The interval in effect `n` retries after a reset.
    pub open spec fn ceiling(self, n: nat) -> int {
        self.ceiling_from(self.start(), n)
    }

    /// Whether the interval reaches the maximum: it starts there, or it
    /// starts above zero and the multiplier is above one.
    pub open spec fn climbs(self) -> bool {
        self.start() == self.max_interval || (self.start() > 0 && self.growth() > PER_MILLE)
    }

    /// The policy that `new` makes of its three arguments.
    pub open spec fn clamped(randomization_factor: u32, multiplier: u32, max_interval: u64) -> Self {
        BackoffPolicy {
            initial_interval: if max_interval < DEFAULT_INITIAL_INTERVAL {
                max_interval
            } else {
                DEFAULT_INITIAL_INTERVAL
            },
            randomization_factor: if randomization_factor > PER_MILLE {
                PER_MILLE
            } else {
                randomization_factor
            },
            multiplier: if multiplier < PER_MILLE {
                PER_MILLE
            } else {
                multiplier
            },
            max_interval,
        }
    }

    /// The policy in use where none is chosen: delays between half and one and
    /// a half times the interval, which starts at half a second, grows by half
    /// of itself with each retry and stops at one minute.
    pub open spec fn standard() -> Self {
        Self::clamped(DEFAULT_RANDOMIZATION_FACTOR, DEFAULT_MULTIPLIER, DEFAULT_MAX_INTERVAL)
    }

    /// A policy with the given factor, multiplier and maximum, each brought
    /// into its valid range, and the default initial interval, which is
    /// lowered to the maximum where the maximum is shorter.
    pub fn new(randomization_factor: u32, multiplier: u32, max_interval: u64) -> (policy: Self)
        ensures
            policy == Self::clamped(randomization_factor, multiplier, max_interval),
            policy.factor() == policy.randomization_factor,
            policy.growth() == policy.multiplier,
            policy.start() == policy.initial_interval,
    {
        BackoffPolicy {
            initial_interval: if max_interval < DEFAULT_INITIAL_INTERVAL {
                max_interval
            } else {
                DEFAULT_INITIAL_INTERVAL
            },
            randomization_factor: if randomization_factor > PER_MILLE {
                PER_MILLE
            } else {
                randomization_factor
            },
            multiplier: if multiplier < PER_MILLE {
                PER_MILLE
            } else {
                multiplier
            },
            max_interval,
        }
    }

    /// The interval to start from after a reset.
    pub fn reset(&self) -> (interval: u64)
        ensures
            interval == self.start(),
    {
        if self.initial_interval > self.max_interval {
            self.max_interval
        } else {
            self.initial_interval
        }
    }

    /// One step of the backoff: the delay to wait now, picked by `sample` from
    /// the window round `current_interval`, and the interval of the next step.
    pub fn next(&self, current_interval: u64, sample: u32) -> (step: (u64, u64))
        ensures
            step.0 == self.delay(current_interval as int, sample as int),
            step.1 == self.grown(current_interval as int),
            self.lowest(current_interval as int) <= step.0 <= self.highest(current_interval as int),
    {
        let factor: u128 = if self.randomization_factor > PER_MILLE {
            1000
        } else {
            self.randomization_factor as u128
        };
        let growth: u128 = if self.multiplier < PER_MILLE {
            1000
        } else {
            self.multiplier as u128
        };
        let interval: u128 = current_interval as u128;
        proof {
            lemma_product_bounds(interval as int, factor as int, u64::MAX as int, 1000);
            lemma_product_bounds(interval as int, growth as int, u64::MAX as int, u32::MAX as int);
            lemma_delay_in_window(*self, current_interval as int, sample as int);
        }
        let spread: u128 = interval * factor / 1000;
        let lowest: u128 = interval - spread;
        let highest: u128 = if interval + spread > u64::MAX as u128 {
            u64::MAX as u128
        } else {
            interval + spread
        };
        let width: u128 = highest - lowest + 1;
        proof {
            lemma_product_bounds(width as int, sample as int, u64::MAX as int + 1, u32::MAX as int);
        }
        let offset: u128 = width * (sample as u128) / 0x1_0000_0000;
        let delay: u128 = lowest + offset;
        let scaled: u128 = (interval * growth + 999) / 1000;
        let next_interval: u64 = if scaled >= self.max_interval as u128 {
            self.max_interval
        } else {
            scaled as u64
        };
        (delay as u64, next_interval)
    }
}

/// A product of two bounded naturals is a bounded natural.
pub proof fn lemma_product_bounds(a: int, b: int, a_max: int, b_max: int)
    requires
        0 <= a <= a_max,
        0 <= b <= b_max,
    ensures
        0 <= a * b <= a_max * b_max,
{
    assert(0 <= a * b <= a_max * b_max) by (nonlinear_arith)
        requires
            0 <= a <= a_max,
            0 <= b <= b_max,
    ;
}

/// Every delay lies in the window round the interval, and the window lies
/// within the interval less and plus the randomization factor's share of it.
pub proof fn lemma_delay_in_window(policy: BackoffPolicy, interval: int, sample: int)
    requires
        0 <= interval <= u64::MAX,
        0 <= sample < SAMPLE_RANGE,
    ensures
        0 <= policy.spread(interval) <= interval,
        0 <= policy.lowest(interval) <= interval <= policy.highest(interval) <= u64::MAX,
        policy.lowest(interval) <= policy.delay(interval, sample) <= policy.highest(interval),
        interval * (PER_MILLE - policy.factor()) <= PER_MILLE * policy.lowest(interval),
        PER_MILLE * policy.highest(interval) <= interval * (PER_MILLE + policy.factor()),
{
    let f = policy.factor();
    let p = interval * f;
    assert(0 <= p <= interval * 1000) by (nonlinear_arith)
        requires
            p == interval * f,
            0 <= interval,
            0 <= f <= 1000,
    ;
    let spread = policy.spread(interval);
    assert(spread == p / 1000);
    assert(1000 * spread <= p);
    let width = policy.highest(interval) - policy.lowest(interval) + 1;
    let q = width * sample;
    assert(0 <= q < width * 0x1_0000_0000) by (nonlinear_arith)
        requires
            q == width * sample,
            1 <= width,
            0 <= sample < 0x1_0000_0000,
    ;
    assert(interval * (1000 - f) == interval * 1000 - p) by (nonlinear_arith)
        requires
            p == interval * f,
    ;
    assert(interval * (1000 + f) == interval * 1000 + p) by (nonlinear_arith)
        requires
            p == interval * f,
    ;
}

/// The first of the samples that pick the `k`-th delay of a window of `width`
/// delays, counting the delays from 0: `k * 2^32 / width`, rounded up.
pub open spec fn first_sample(width: int, k: int) -> int {
    (k * SAMPLE_RANGE + width - 1) / width
}

/// A quotient that is rounded up is at most `bound` exactly where the
/// dividend is at most `bound` times the divisor.
pub proof fn lemma_rounded_up(dividend: int, divisor: int, bound: int)
    requires
        0 < divisor,
    ensures
        (dividend + divisor - 1) / divisor <= bound <==> dividend <= divisor * bound,
{
    let x = dividend + divisor - 1;
    let q = x / divisor;
    let r = x % divisor;
    lemma_fundamental_div_mod(x, divisor);
    lemma_mod_bound(x, divisor);
    assert(x == divisor * q + r);
    if q <= bound {
        assert(divisor * q <= divisor * bound) by (nonlinear_arith)
            requires
                q <= bound,
                0 < divisor,
        ;
    } else {
        assert(divisor * q >= divisor * bound + divisor) by (nonlinear_arith)
            requires
                q >= bound + 1,
                0 < divisor,
        ;
    }
}

/// The delays of a window share the samples evenly. The samples that pick
/// the `k`-th delay are those from `first_sample(k)` up to, and not
/// including, `first_sample(k + 1)`; the number of them is `2^32` divided by
/// the number of delays, rounded down or up; and between them the delays of
/// the window take up all the samples. So a sample that is drawn uniformly
/// picks each delay of the window with the same chance, up to one part in
/// `2^32`.
pub proof fn lemma_delays_share_samples(policy: BackoffPolicy, interval: int, k: int, sample: int)
    requires
        0 <= interval <= u64::MAX,
        0 <= sample < SAMPLE_RANGE,
        0 <= k < policy.width(interval),
    ensures
        policy.delay(interval, sample) == policy.lowest(interval) + k <==> first_sample(
            policy.width(interval),
            k,
        ) <= sample < first_sample(policy.width(interval), k + 1),
        (SAMPLE_RANGE as int) / policy.width(interval) <= first_sample(
            policy.width(interval),
            k + 1,
        ) - first_sample(policy.width(interval), k) <= (SAMPLE_RANGE as int) / policy.width(
            interval,
        ) + 1,
        first_sample(policy.width(interval), 0) == 0,
        first_sample(policy.width(interval), policy.width(interval)) == SAMPLE_RANGE,
{
    lemma_delay_in_window(policy, interval, sample);
    let w = policy.width(interval);
    let range = SAMPLE_RANGE as int;
    let offset = (w * sample) / range;
    assert(policy.delay(interval, sample) == policy.lowest(interval) + offset);
    let this = first_sample(w, k);
    let next = first_sample(w, k + 1);
    // Which samples pick the k-th delay.
    lemma_rounded_up(k * range, w, sample);
    lemma_rounded_up((k + 1) * range, w, sample);
    assert((k + 1) * range == k * range + range) by (nonlinear_arith);
    // How many they are.
    let share = range / w;
    lemma_fundamental_div_mod(range, w);
    lemma_mod_bound(range, w);
    lemma_rounded_up(k * range, w, this);
    lemma_rounded_up(k * range, w, this - 1);
    lemma_rounded_up((k + 1) * range, w, this + share + 1);
    lemma_rounded_up((k + 1) * range, w, this + share - 1);
    assert(w * (this + share + 1) == w * this + w * share + w) by (nonlinear_arith);
    assert(w * (this + share - 1) == w * (this - 1) + w * share) by (nonlinear_arith);
    // The first and the last.
    lemma_rounded_up(0, w, 0);
    lemma_rounded_up(0, w, -1);
    assert(w * 0 == 0 && 0 * range == 0);
    assert(w * (-1) == -w) by (nonlinear_arith);
    lemma_rounded_up(w * range, w, range);
    lemma_rounded_up(w * range, w, range - 1);
    assert(w * (range - 1) == w * range - w) by (nonlinear_arith);
}

/// Multiplying an interval that is within the maximum gives an interval that
/// is no shorter and still within the maximum.
pub proof fn lemma_grown_bounds(policy: BackoffPolicy, interval: int)
    requires
        0 <= interval <= policy.max_interval,
    ensures
        interval <= policy.grown(interval) <= policy.max_interval,
{
    let g = policy.growth();
    let p = interval * g;
    assert(p >= interval * 1000) by (nonlinear_arith)
        requires
            p == interval * g,
            0 <= interval,
            g >= 1000,
    ;
}

/// A multiplier above one gains at least a millisecond on every interval
/// that is above zero and below the maximum.
pub proof fn lemma_grown_gains(policy: BackoffPolicy, interval: int)
    requires
        policy.growth() > PER_MILLE,
        0 < interval < policy.max_interval,
    ensures
        policy.grown(interval) > interval,
{
    let g = policy.growth();
    let p = interval * g;
    assert(p >= interval * 1000 + 1) by (nonlinear_arith)
        requires
            p == interval * g,
            0 < interval,
            g >= 1001,
    ;
}

/// A number multiplied by itself `n` times.
pub open spec fn power(base: int, n: nat) -> int
    decreases n,
{
    if n == 0 {
        1
    } else {
        base * power(base, (n - 1) as nat)
    }
}

/// A power of a positive number is positive.
pub proof fn lemma_power_positive(base: int, n: nat)
    requires
        0 < base,
    ensures
        0 < power(base, n),
    decreases n,
{
    if n > 0 {
        lemma_power_positive(base, (n - 1) as nat);
        let rest = power(base, (n - 1) as nat);
        assert(0 < base * rest) by (nonlinear_arith)
            requires
                0 < base,
                0 < rest,
        ;
    }
}

/// The intervals never shrink and never pass the maximum.
pub proof fn lemma_ceiling_bounds(policy: BackoffPolicy, first: int, n: nat)
    requires
        0 <= first <= policy.max_interval,
    ensures
        first <= policy.ceiling_from(first, n) <= policy.max_interval,
        policy.ceiling_from(first, n) <= policy.ceiling_from(first, n + 1),
    decreases n,
{
    if n > 0 {
        lemma_ceiling_bounds(policy, first, (n - 1) as nat);
    }
    lemma_grown_bounds(policy, policy.ceiling_from(first, n));
}

/// The intervals of successive retries form a non-decreasing sequence.
pub proof fn lemma_ceiling_monotonic(policy: BackoffPolicy, first: int, i: nat, j: nat)
    requires
        0 <= first <= policy.max_interval,
        i <= j,
    ensures
        policy.ceiling_from(first, i) <= policy.ceiling_from(first, j),
    decreases j - i,
{
    if i < j {
        lemma_ceiling_monotonic(policy, first, i, (j - 1) as nat);
        lemma_ceiling_bounds(policy, first, (j - 1) as nat);
    }
}

/// Once the interval has reached the maximum it stays there.
pub proof fn lemma_ceiling_stays(policy: BackoffPolicy, first: int, i: nat, j: nat)
    requires
        0 <= first <= policy.max_interval,
        i <= j,
        policy.ceiling_from(first, i) == policy.max_interval,
    ensures
        policy.ceiling_from(first, j) == policy.max_interval,
{
    lemma_ceiling_monotonic(policy, first, i, j);
    lemma_ceiling_bounds(policy, first, j);
}

/// While the interval is below the maximum, each retry gains at least one
/// millisecond on it.
pub proof fn lemma_ceiling_climbs(policy: BackoffPolicy, first: int, n: nat)
    requires
        policy.growth() > PER_MILLE,
        0 < first <= policy.max_interval,
    ensures
        policy.ceiling_from(first, n) >= first + n || policy.ceiling_from(first, n)
            == policy.max_interval,
    decreases n,
{
    if n > 0 {
        let m = (n - 1) as nat;
        lemma_ceiling_climbs(policy, first, m);
        lemma_ceiling_bounds(policy, first, m);
        if policy.ceiling_from(first, m) == policy.max_interval {
            lemma_ceiling_stays(policy, first, m, n);
        } else {
            lemma_grown_gains(policy, policy.ceiling_from(first, m));
        }
    }
}

/// The interval grows at least as fast as the multiplier says: after `n`
/// retries it is the maximum, or at least the first interval times the `n`-th
/// power of the multiplier.
pub proof fn lemma_ceiling_multiplies(policy: BackoffPolicy, first: int, n: nat)
    requires
        0 <= first <= policy.max_interval,
    ensures
        policy.ceiling_from(first, n) == policy.max_interval || policy.ceiling_from(first, n)
            * power(PER_MILLE as int, n) >= first * power(policy.growth(), n),
    decreases n,
{
    if n > 0 {
        let m = (n - 1) as nat;
        lemma_ceiling_multiplies(policy, first, m);
        lemma_ceiling_bounds(policy, first, m);
        let c = policy.ceiling_from(first, m);
        let next = policy.ceiling_from(first, n);
        let g = policy.growth();
        if c == policy.max_interval {
            lemma_ceiling_stays(policy, first, m, n);
        } else if next != policy.max_interval {
            let thousands = power(1000, m);
            let growths = power(g, m);
            lemma_power_positive(1000, m);
            lemma_power_positive(g, m);
            let p = c * g;
            assert(1000 * next >= p);
            assert((1000 * next) * thousands >= p * thousands) by (nonlinear_arith)
                requires
                    1000 * next >= p,
                    0 < thousands,
            ;
            assert(p * thousands == g * (c * thousands)) by (nonlinear_arith)
                requires
                    p == c * g,
            ;
            assert(g * (c * thousands) >= g * (first * growths)) by (nonlinear_arith)
                requires
                    c * thousands >= first * growths,
                    0 < g,
            ;
            assert(g * (first * growths) == first * (g * growths)) by (nonlinear_arith);
            assert(next * (1000 * thousands) == (1000 * next) * thousands) by (nonlinear_arith);
        }
    }
}

/// The interval converges to the maximum for every multiplier above one and
/// every first interval above zero: it is the maximum after as many retries
/// as it takes the powers of the multiplier to make up the ratio of the
/// maximum to the first interval, and in any case after as many retries as
/// the maximum lies milliseconds above the first interval. By
/// `lemma_ceiling_stays` it is the maximum from then on.
pub proof fn lemma_ceiling_converges(policy: BackoffPolicy, first: int, n: nat)
    requires
        policy.growth() > PER_MILLE,
        0 < first <= policy.max_interval,
        n >= policy.max_interval - first || first * power(policy.growth(), n)
            >= policy.max_interval * power(PER_MILLE as int, n),
    ensures
        policy.ceiling_from(first, n) == policy.max_interval,
{
    lemma_ceiling_climbs(policy, first, n);
    lemma_ceiling_multiplies(policy, first, n);
    lemma_ceiling_bounds(policy, first, n);
    let c = policy.ceiling_from(first, n);
    let thousands = power(1000, n);
    lemma_power_positive(1000, n);
    if c < policy.max_interval {
        assert(c * thousands < policy.max_interval * thousands) by (nonlinear_arith)
            requires
                c < policy.max_interval,
                0 < thousands,
        ;
    }
}

/// A policy that does not climb never leaves its start. So the interval
/// reaches the maximum exactly for the policies that climb: a multiplier of
/// one, and a start at zero below the maximum, are the only ones that do not.
pub proof fn lemma_ceiling_stuck(policy: BackoffPolicy, n: nat)
    requires
        !policy.climbs(),
    ensures
        policy.ceiling(n) == policy.start(),
        policy.ceiling(n) < policy.max_interval,
    decreases n,
{
    if n > 0 {
        lemma_ceiling_stuck(policy, (n - 1) as nat);
    }
    let g = policy.growth();
    let p = policy.start() * g;
    assert(p == policy.start() * 1000) by (nonlinear_arith)
        requires
            p == policy.start() * g,
            policy.start() == 0 || g == 1000,
    ;
}

/// The state of a backoff between retries: its policy, the interval that the
/// next delay is drawn round, and whether a reconnect sequence is under way.
#[derive(Copy, Clone, Debug, PartialEq, Eq, Structural)]
pub struct BackoffState {
    pub policy: BackoffPolicy,
    /// The current retry interval, in milliseconds.
    pub current_interval: u64,
    /// Whether a delay has been drawn since the last reset.
    pub active: bool,
}

impl BackoffState {
    /// The interval lies between the policy's start and its maximum.
    pub open spec fn wf(self) -> bool {
        self.policy.start() <= self.current_interval <= self.policy.max_interval
    }

    /// The state of a backoff that has not been used yet.
    pub open spec fn fresh(policy: BackoffPolicy) -> Self {
        BackoffState { policy, current_interval: policy.start() as u64, active: false }
    }

    /// The delay that `sample` picks in this state.
    pub open spec fn delay(self, sample: u32) -> int {
        self.policy.delay(self.current_interval as int, sample as int)
    }

    /// The state after a delay has been drawn: active, with the next interval.
    pub open spec fn advance(self) -> Self {
        BackoffState {
            policy: self.policy,
            current_interval: self.policy.grown(self.current_interval as int) as u64,
            active: true,
        }
    }

    /// The state after a reset: inactive, back at the policy's start.
    pub open spec fn restart(self) -> Self {
        Self::fresh(self.policy)
    }

    /// The state after `n` delays have been drawn in a row.
    pub open spec fn after(self, n: nat) -> Self
        decreases n,
    {
        if n == 0 {
            self
        } else {
            self.after((n - 1) as nat).advance()
        }
    }
}

/// Drawing `n` delays in a row walks the policy's intervals: the state stays
/// well formed, keeps its policy, is active once a delay was drawn, and its
/// interval is the `n`-th after the one it began with.
pub proof fn lemma_after(state: BackoffState, n: nat)
    requires
        state.wf(),
    ensures
        state.after(n).wf(),
        state.after(n).policy == state.policy,
        state.after(n).active == (state.active || n > 0),
        state.after(n).current_interval == state.policy.ceiling_from(
            state.current_interval as int,
            n,
        ),
    decreases n,
{
    if n > 0 {
        lemma_after(state, (n - 1) as nat);
        lemma_grown_bounds(state.policy, state.after((n - 1) as nat).current_interval as int);
    }
}

/// Delays drawn in a row, with no reset between them, are drawn round
/// intervals that never shrink; each delay lies within its interval less and
/// plus the randomization factor's share; and for every multiplier above one
/// and every interval above zero, the interval reaches the maximum, as fast
/// as the powers of the multiplier, and stays there.
pub proof fn lemma_consecutive_backoffs(state: BackoffState, i: nat, j: nat, sample: u32)
    requires
        state.wf(),
        i <= j,
    ensures
        state.after(i).current_interval <= state.after(j).current_interval
            <= state.policy.max_interval,
        state.after(i).current_interval * (PER_MILLE - state.policy.factor()) <= PER_MILLE
            * state.after(i).delay(sample),
        PER_MILLE * state.after(i).delay(sample) <= state.after(i).current_interval * (PER_MILLE
            + state.policy.factor()),
        state.after(i).current_interval == state.policy.max_interval ==> state.after(
            j,
        ).current_interval == state.policy.max_interval,
        state.policy.growth() > PER_MILLE && state.current_interval > 0 && (i
            >= state.policy.max_interval - state.current_interval || state.current_interval
            * power(state.policy.growth(), i) >= state.policy.max_interval * power(
            PER_MILLE as int,
            i,
        )) ==> state.after(i).current_interval == state.policy.max_interval,
{
    let policy = state.policy;
    let first = state.current_interval as int;
    lemma_after(state, i);
    lemma_after(state, j);
    lemma_ceiling_monotonic(policy, first, i, j);
    lemma_ceiling_bounds(policy, first, j);
    lemma_delay_in_window(policy, state.after(i).current_interval as int, sample as int);
    if state.after(i).current_interval == policy.max_interval {
        lemma_ceiling_stays(policy, first, i, j);
    }
    if policy.growth() > PER_MILLE && first > 0 && (i >= policy.max_interval - first || first
        * power(policy.growth(), i) >= policy.max_interval * power(PER_MILLE as int, i)) {
        lemma_ceiling_converges(policy, first, i);
    }
}

/// A reset undoes any number of retries, and a second reset changes nothing.
pub proof fn lemma_restart(state: BackoffState, n: nat)
    requires
        state.wf(),
    ensures
        state.after(n).restart() == BackoffState::fresh(state.policy),
        state.restart().restart() == state.restart(),
        state.restart().wf(),
        !state.restart().active,
        state.restart().current_interval == state.policy.start(),
{
    lemma_after(state, n);
}

} // verus!
