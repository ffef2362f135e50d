use vstd::prelude::*;
use vstd::arithmetic::div_mod::{lemma_fundamental_div_mod, lemma_fundamental_div_mod_converse};
use vstd::arithmetic::mul::{lemma_mul_inequality, lemma_mul_is_distributive_add_other_way};

use crate::text::string_of;

verus! {

/// The number of nanoseconds in a second.
pub const NANOS_PER_SEC: u64 = 1_000_000_000;

/// The longest span a `Duration` holds: `u64::MAX` seconds and 999 999 999 nanoseconds.
pub open spec fn duration_max_nanos() -> nat {
    0xFFFF_FFFF_FFFF_FFFFnat * 1_000_000_000nat + 999_999_999nat
}

/// A span of time in nanoseconds, with the range of `std::time::Duration`.
#[derive(Debug, Clone, Copy, PartialEq, Eq, PartialOrd, Ord, Structural)]
pub struct Duration {
    nanos: u128,
}

impl View for Duration {
    type V = nat;

    closed spec fn view(&self) -> nat {
        self.nanos as nat
    }
}

impl Duration {
    #[verifier::type_invariant]
    closed spec fn in_range(self) -> bool {
        self.nanos <= duration_max_nanos()
    }

    /// Every duration is at most `duration_max_nanos()`.
    pub fn as_nanos(&self) -> (r: u128)
        ensures
            r == self@,
            self@ <= duration_max_nanos(),
    {
        proof {
            use_type_invariant(self);
        }
        self.nanos
    }

    /// The empty span.
    pub fn zero() -> (r: Self)
        ensures
            r@ == 0,
    {
        Duration { nanos: 0 }
    }

    /// The longest span.
    pub fn max_value() -> (r: Self)
        ensures
            r@ == duration_max_nanos(),
    {
        Duration { nanos: 0xFFFF_FFFF_FFFF_FFFFu128 * 1_000_000_000u128 + 999_999_999u128 }
    }

    /// `n` nanoseconds.
    pub fn from_nanos(n: u64) -> (r: Self)
        ensures
            r@ == n,
    {
        Duration { nanos: n as u128 }
    }

    /// `n` milliseconds.
    pub fn from_millis(n: u64) -> (r: Self)
        ensures
            r@ == n * 1_000_000,
    {
        Duration { nanos: n as u128 * 1_000_000u128 }
    }

    /// `n` seconds.
    pub fn from_secs(n: u64) -> (r: Self)
        ensures
            r@ == n * 1_000_000_000,
    {
        Duration { nanos: n as u128 * 1_000_000_000u128 }
    }

    /// `self + other`, or `None` past the longest span.
    pub fn checked_add(self, other: Self) -> (r: Option<Self>)
        ensures
            match r {
                Some(d) => d@ == self@ + other@ && self@ + other@ <= duration_max_nanos(),
                None => self@ + other@ > duration_max_nanos(),
            },
    {
        let a = self.as_nanos();
        let b = other.as_nanos();
        let max = Duration::max_value().as_nanos();
        if a > max - b {
            None
        } else {
            Some(Duration { nanos: a + b })
        }
    }

    /// `self + other`, capped at the longest span.
    pub fn saturating_add(self, other: Self) -> (r: Self)
        ensures
            r@ == if self@ + other@ > duration_max_nanos() {
                duration_max_nanos()
            } else {
                self@ + other@
            },
    {
        match self.checked_add(other) {
            Some(d) => d,
            None => Duration::max_value(),
        }
    }

    /// `self - other`, or zero when `other` is longer.
    pub fn saturating_sub(self, other: Self) -> (r: Self)
        ensures
            r@ == if self@ >= other@ {
                self@ - other@
            } else {
                0
            },
    {
        let a = self.as_nanos();
        let b = other.as_nanos();
        if a >= b {
            Duration { nanos: a - b }
        } else {
            Duration { nanos: 0 }
        }
    }

    /// `self * k`, or `None` past the longest span.
    pub fn checked_mul(self, k: u32) -> (r: Option<Self>)
        ensures
            match r {
                Some(d) => d@ == self@ * k && self@ * k <= duration_max_nanos(),
                None => self@ * k > duration_max_nanos(),
            },
    {
        let a = self.as_nanos();
        let max = Duration::max_value().as_nanos();
        if k == 0 {
            return Some(Duration { nanos: 0 });
        }
        if a > max / (k as u128) {
            proof {
                lemma_fundamental_div_mod(max as int, k as int);
                lemma_mul_inequality((max / (k as u128)) as int + 1, a as int, k as int);
                lemma_mul_is_distributive_add_other_way(k as int, (max / (k as u128)) as int, 1);
            }
            None
        } else {
            proof {
                lemma_fundamental_div_mod(max as int, k as int);
                lemma_mul_inequality(a as int, (max / (k as u128)) as int, k as int);
            }
            Some(Duration { nanos: a * (k as u128) })
        }
    }
}

// ---------------------------------------------------------------------------------------------
// The fixed-step duration: `Duration::from_secs_f64(1.0 / rate as f64)` in integers
// ---------------------------------------------------------------------------------------------

/// `2^n`.
pub open spec fn pow2(n: nat) -> nat
    decreases n,
{
    if n == 0 {
        1
    } else {
        2 * pow2((n - 1) as nat)
    }
}

/// The least `k` with `r <= 2^k`, searching from `k`.
pub open spec fn ceil_log2_from(r: nat, k: nat) -> nat
    decreases 64 - k,
{
    if k >= 64 || r <= pow2(k) {
        k
    } else {
        ceil_log2_from(r, k + 1)
    }
}

/// The least `k` with `r <= 2^k` (for `r < 2^64`).
pub open spec fn ceil_log2(r: nat) -> nat {
    ceil_log2_from(r, 0)
}

/// `a / b` rounded to the nearest integer, ties to even.
pub open spec fn div_round_even(a: nat, b: nat) -> nat {
    let q = a / b;
    let twice = 2 * (a % b);
    if twice > b || (twice == b && q % 2 == 1) {
        q + 1
    } else {
        q
    }
}

/// The binary exponent `p` at which `2^p / r` has 53 bits before the point.
pub open spec fn reciprocal_scale(r: nat) -> nat {
    52 + ceil_log2(r)
}

/// The length of a fixed step at `rate` steps per second, in nanoseconds: `1 / rate` rounded
/// to the nearest double (53-bit significand, ties to even), then that number of seconds
/// rounded to the nearest nanosecond (ties to even), which is what
/// `Duration::from_secs_f64(1.0 / rate as f64)` gives.
pub open spec fn step_nanos(rate: nat) -> nat {
    let p = reciprocal_scale(rate);
    div_round_even(1_000_000_000 * div_round_even(pow2(p), rate), pow2(p))
}

proof fn lemma_pow2_positive(n: nat)
    ensures
        pow2(n) > 0,
    decreases n,
{
    if n > 0 {
        lemma_pow2_positive((n - 1) as nat);
    }
}

proof fn lemma_pow2_monotone(a: nat, b: nat)
    requires
        a <= b,
    ensures
        pow2(a) <= pow2(b),
    decreases b,
{
    if a < b {
        lemma_pow2_monotone(a, (b - 1) as nat);
        lemma_pow2_positive((b - 1) as nat);
    }
}

proof fn lemma_pow2_32()
    ensures
        pow2(32) == 0x1_0000_0000,
{
    reveal_with_fuel(pow2, 33);
}

proof fn lemma_pow2_85()
    ensures
        pow2(85) == 0x20_0000_0000_0000_0000_0000,
{
    reveal_with_fuel(pow2, 86);
}

/// `a / b` rounded to the nearest integer, ties to even.
fn div_round_even_u128(a: u128, b: u128) -> (r: u128)
    requires
        b > 0,
        a / b < u128::MAX,
    ensures
        r == div_round_even(a as nat, b as nat),
{
    let q = a / b;
    let rem = a % b;
    if rem > b - rem || (rem == b - rem && q % 2 == 1) {
        q + 1
    } else {
        q
    }
}

/// The fixed-step length at `rate` steps per second, as `step_nanos` describes.
pub fn step_duration_for_rate(rate: u32) -> (r: Duration)
    requires
        rate > 0,
    ensures
        r@ == step_nanos(rate as nat),
{
    // The least k with rate <= 2^k; at most 32.
    let mut k: u32 = 0;
    let mut pk: u128 = 1;
    proof {
        lemma_pow2_32();
    }
    while pk < (rate as u128)
        invariant
            k <= 32,
            pk == pow2(k as nat),
            pow2(32) == 0x1_0000_0000,
            forall|j: nat| j < k ==> #[trigger] pow2(j) < rate,
            ceil_log2_from(rate as nat, 0) == ceil_log2_from(rate as nat, k as nat),
        decreases 32 - k,
    {
        proof {
            if k == 32 {
                assert(false);
            }
            assert(pow2(k as nat) < rate);
        }
        k = k + 1;
        pk = pk * 2;
        proof {
            lemma_pow2_monotone(k as nat, 32);
        }
    }
    proof {
        assert(ceil_log2_from(rate as nat, k as nat) == k);
    }
    // 2^p with p = 52 + k.
    let p = 52 + k;
    let mut two_p: u128 = 1;
    let mut i: u32 = 0;
    while i < p
        invariant
            i <= p,
            p <= 84,
            two_p == pow2(i as nat),
        decreases p - i,
    {
        proof {
            lemma_pow2_monotone((i + 1) as nat, 85);
            lemma_pow2_85();
        }
        two_p = two_p * 2;
        i = i + 1;
    }
    proof {
        lemma_pow2_positive(p as nat);
        lemma_pow2_monotone(p as nat, 85);
        lemma_pow2_85();
    }
    let significand = div_round_even_u128(two_p, rate as u128);
    proof {
        // significand <= 2^p / rate + 1 <= 2^p + 1 < 2^86
        assert(significand <= two_p / (rate as u128) + 1);
        assert(two_p / (rate as u128) <= two_p) by {
            vstd::arithmetic::div_mod::lemma_div_is_ordered_by_denominator(
                two_p as int,
                1,
                rate as int,
            );
        }
        assert(1_000_000_000u128 * significand <= 1_000_000_000u128 * (two_p + 1)) by {
            lemma_mul_inequality(significand as int, two_p as int + 1, 1_000_000_000);
        }
    }
    let scaled = 1_000_000_000u128 * significand;
    proof {
        vstd::arithmetic::div_mod::lemma_div_is_ordered_by_denominator(
            scaled as int,
            1,
            two_p as int,
        );
    }
    let nanos = div_round_even_u128(scaled, two_p);
    proof {
        // 1/rate rounds to at most one second, so at most 10^9 nanoseconds.
        assert(significand <= two_p) by {
            let q = two_p / (rate as u128);
            if rate == 1 {
                assert(two_p % 1 == 0);
            } else {
                vstd::arithmetic::div_mod::lemma_div_is_ordered_by_denominator(
                    two_p as int,
                    2,
                    rate as int,
                );
                assert(two_p / 2 < two_p);
            }
        }
        assert(scaled <= 1_000_000_000u128 * two_p) by {
            lemma_mul_inequality(significand as int, two_p as int, 1_000_000_000);
        }
        vstd::arithmetic::div_mod::lemma_div_is_ordered(
            scaled as int,
            1_000_000_000u128 * two_p,
            two_p as int,
        );
        vstd::arithmetic::div_mod::lemma_div_multiples_vanish(1_000_000_000, two_p as int);
    }
    Duration { nanos }
}

// ---------------------------------------------------------------------------------------------
// The fixed-step clock
// ---------------------------------------------------------------------------------------------

/// The simulation rate and how many steps one pump may catch up.
#[derive(Debug, Clone, Copy, PartialEq, Eq, Structural)]
pub struct FixedStepConfig {
    pub simulation_rate_hz: u32,
    pub max_catch_up_steps: u32,
}

impl Default for FixedStepConfig {
    fn default() -> (r: Self)
        ensures
            r.simulation_rate_hz == 120,
            r.max_catch_up_steps == 5,
    {
        FixedStepConfig { simulation_rate_hz: 120, max_catch_up_steps: 5 }
    }
}

/// The message for a zero simulation rate.
pub open spec fn zero_rate_message() -> Seq<char> {
    "simulation_rate_hz must be greater than zero"@
}

/// The message for a zero catch-up limit.
pub open spec fn zero_catch_up_message() -> Seq<char> {
    "max_catch_up_steps must be greater than zero"@
}

impl FixedStepConfig {
    /// The configuration itself when both numbers are positive; the rate is checked first.
    pub fn validate(self) -> (r: Result<Self, String>)
        ensures
            self.simulation_rate_hz == 0 ==> (r matches Err(m) && m@ == zero_rate_message()),
            self.simulation_rate_hz != 0 && self.max_catch_up_steps == 0 ==> (r matches Err(m)
                && m@ == zero_catch_up_message()),
            self.simulation_rate_hz != 0 && self.max_catch_up_steps != 0 ==> r == Ok::<
                Self,
                String,
            >(self),
    {
        if self.simulation_rate_hz == 0 {
            return Err(string_of("simulation_rate_hz must be greater than zero"));
        }
        if self.max_catch_up_steps == 0 {
            return Err(string_of("max_catch_up_steps must be greater than zero"));
        }
        Ok(self)
    }

    /// The length of one fixed step.
    pub fn step_duration(self) -> (r: Duration)
        requires
            self.simulation_rate_hz > 0,
        ensures
            r@ == step_nanos(self.simulation_rate_hz as nat),
    {
        step_duration_for_rate(self.simulation_rate_hz)
    }
}

/// What one pump of the clock decided.
#[derive(Debug, Clone, Copy, PartialEq, Eq, Structural)]
pub struct FixedStepDecision {
    pub steps_to_run: u32,
    pub backlog_saturated: bool,
    pub residual_time: Duration,
}

/// Turns elapsed wall time into a number of fixed simulation steps.
#[derive(Debug, PartialEq, Eq)]
pub struct FixedStepClock {
    config: FixedStepConfig,
    step_duration: Duration,
    accumulator: Duration,
}

/// The backlog cap: `max` steps of `step` nanoseconds, or the longest span if that overflows.
pub open spec fn backlog_cap(step: nat, max: nat) -> nat {
    if step * max > duration_max_nanos() {
        duration_max_nanos()
    } else {
        step * max
    }
}

/// The time banked after adding `elapsed` to `accumulated`, before steps are taken.
pub open spec fn banked_time(accumulated: nat, elapsed: nat, step: nat, max: nat) -> nat {
    let sum = if accumulated + elapsed > duration_max_nanos() {
        duration_max_nanos()
    } else {
        accumulated + elapsed
    };
    if sum > backlog_cap(step, max) {
        backlog_cap(step, max)
    } else {
        sum
    }
}

/// How many steps a pump runs on `banked` nanoseconds: as many whole steps as fit, at most
/// `max` (a zero-length step always runs `max` times).
pub open spec fn steps_for(banked: nat, step: nat, max: nat) -> nat {
    if step == 0 {
        max
    } else if banked / step < max {
        banked / step
    } else {
        max
    }
}

impl FixedStepClock {
    #[verifier::type_invariant]
    closed spec fn consistent(self) -> bool {
        &&& self.config.simulation_rate_hz > 0
        &&& self.config.max_catch_up_steps > 0
        &&& self.step_duration@ == step_nanos(self.config.simulation_rate_hz as nat)
    }

    /// The time banked but not yet stepped.
    pub closed spec fn accumulated(self) -> nat {
        self.accumulator@
    }

    /// The clock's configuration.
    pub closed spec fn spec_config(self) -> FixedStepConfig {
        self.config
    }

    /// A clock with nothing banked, for a configuration that validates.
    pub fn new(config: FixedStepConfig) -> (r: Result<Self, String>)
        ensures
            config.simulation_rate_hz == 0 ==> (r matches Err(m) && m@ == zero_rate_message()),
            config.simulation_rate_hz != 0 && config.max_catch_up_steps == 0 ==> (r matches Err(
                m,
            ) && m@ == zero_catch_up_message()),
            config.simulation_rate_hz != 0 && config.max_catch_up_steps != 0 ==> (r matches Ok(c)
                && c.spec_config() == config && c.accumulated() == 0),
            r matches Ok(c) ==> step_nanos(c.spec_config().simulation_rate_hz as nat)
                <= 1_000_000_000,
    {
        proof {
            if config.simulation_rate_hz > 0 {
                lemma_step_at_most_one_second(config.simulation_rate_hz as nat);
            }
        }
        let config = match config.validate() {
            Ok(c) => c,
            Err(e) => return Err(e),
        };
        Ok(
            FixedStepClock {
                step_duration: config.step_duration(),
                config,
                accumulator: Duration::zero(),
            },
        )
    }

    /// The clock's configuration.
    pub fn config(&self) -> (r: FixedStepConfig)
        ensures
            r == self.spec_config(),
            r.simulation_rate_hz > 0,
            r.max_catch_up_steps > 0,
    {
        proof {
            use_type_invariant(self);
        }
        self.config
    }

    /// The length of one step.
    pub fn step_duration(&self) -> (r: Duration)
        ensures
            r@ == step_nanos(self.spec_config().simulation_rate_hz as nat),
    {
        proof {
            use_type_invariant(self);
        }
        self.step_duration
    }

    /// Banks `elapsed`, caps the bank at `max_catch_up_steps` steps (saturating), and takes as
    /// many whole steps as fit, at most `max_catch_up_steps`.
    pub fn advance(&mut self, elapsed: Duration) -> (r: FixedStepDecision)
        ensures
            ({
                let step = step_nanos(old(self).spec_config().simulation_rate_hz as nat);
                let max = old(self).spec_config().max_catch_up_steps as nat;
                let sum = if old(self).accumulated() + elapsed@ > duration_max_nanos() {
                    duration_max_nanos()
                } else {
                    old(self).accumulated() + elapsed@
                };
                let banked = banked_time(old(self).accumulated(), elapsed@, step, max);
                &&& r.backlog_saturated == (sum > backlog_cap(step, max))
                &&& r.steps_to_run == steps_for(banked, step, max)
                &&& r.residual_time@ == banked - steps_for(banked, step, max) * step
                &&& final(self).accumulated() == r.residual_time@
                &&& final(self).spec_config() == old(self).spec_config()
            }),
    {
        proof {
            use_type_invariant(&*self);
        }
        let step = self.step_duration;
        let max_steps = self.config.max_catch_up_steps;
        let max_backlog = match step.checked_mul(max_steps) {
            Some(d) => d,
            None => Duration::max_value(),
        };
        let mut backlog_saturated = false;
        let mut acc = self.accumulator.saturating_add(elapsed);
        if acc.as_nanos() > max_backlog.as_nanos() {
            acc = max_backlog;
            backlog_saturated = true;
        }
        let ghost banked = acc@;
        let mut steps_to_run: u32 = 0;
        let s = step.as_nanos();
        while acc.as_nanos() >= s && steps_to_run < max_steps
            invariant
                s == step@,
                steps_to_run <= max_steps,
                banked == acc@ + steps_to_run * s,
            decreases max_steps - steps_to_run,
        {
            acc = acc.saturating_sub(step);
            steps_to_run = steps_to_run + 1;
            proof {
                vstd::arithmetic::mul::lemma_mul_is_distributive_add_other_way(
                    s as int,
                    (steps_to_run - 1) as int,
                    1,
                );
            }
        }
        proof {
            let max = max_steps as nat;
            if s == 0 {
                assert(steps_to_run == max);
            } else if steps_to_run < max {
                assert(acc@ < s);
                lemma_fundamental_div_mod_converse(banked as int, s as int, steps_to_run as int, acc@ as int);
            } else {
                // banked >= max * s, so banked / s >= max
                assert(banked >= steps_to_run * s);
                vstd::arithmetic::div_mod::lemma_div_is_ordered(
                    (steps_to_run * s) as int,
                    banked as int,
                    s as int,
                );
                vstd::arithmetic::div_mod::lemma_div_multiples_vanish(steps_to_run as int, s as int);
                assert((steps_to_run * s) / (s as int) == steps_to_run) by {
                    vstd::arithmetic::mul::lemma_mul_is_commutative(steps_to_run as int, s as int);
                }
            }
        }
        self.accumulator = acc;
        FixedStepDecision { steps_to_run, backlog_saturated, residual_time: acc }
    }
}

/// A pump never runs more than the catch-up limit, and what it leaves banked is the banked
/// time minus the steps it ran.
pub proof fn lemma_steps_bounded(banked: nat, step: nat, max: nat)
    ensures
        steps_for(banked, step, max) <= max,
        step > 0 && banked <= backlog_cap(step, max) ==> steps_for(banked, step, max) * step
            <= banked,
{
    if step > 0 && banked <= backlog_cap(step, max) {
        vstd::arithmetic::div_mod::lemma_fundamental_div_mod(banked as int, step as int);
        let q = banked / step;
        if q < max {
            vstd::arithmetic::mul::lemma_mul_is_commutative(q as int, step as int);
        } else {
            vstd::arithmetic::mul::lemma_mul_inequality(max as int, q as int, step as int);
            vstd::arithmetic::mul::lemma_mul_is_commutative(q as int, step as int);
        }
    }
}

proof fn lemma_round_even_at_most(a: nat, b: nat, n: nat)
    requires
        b > 0,
        a <= n * b,
    ensures
        div_round_even(a, b) <= n,
{
    vstd::arithmetic::div_mod::lemma_fundamental_div_mod(a as int, b as int);
    let q = a / b;
    let m = a % b;
    assert(0 <= m < b);
    assert(a == b * q + m);
    if q >= n {
        assert(b * q >= b * n) by (nonlinear_arith)
            requires
                q >= n,
                b > 0,
        ;
        assert(m == 0 && q == n) by (nonlinear_arith)
            requires
                a == b * q + m,
                a <= n * b,
                b * q >= b * n,
                0 <= m < b,
                q >= n,
        ;
    }
}

/// A fixed step at a positive rate lasts at most one second.
pub proof fn lemma_step_at_most_one_second(rate: nat)
    requires
        rate >= 1,
    ensures
        step_nanos(rate) <= 1_000_000_000,
{
    let p = reciprocal_scale(rate);
    let big = pow2(p);
    lemma_pow2_positive(p);
    lemma_pow2_monotone(1, p);
    reveal_with_fuel(pow2, 2);
    assert(big >= 2);
    if rate == 1 {
        assert(big / 1 == big && big % 1 == 0) by (nonlinear_arith);
        assert(div_round_even(big, rate) == big);
    } else {
        assert(big <= big * rate) by (nonlinear_arith)
            requires
                rate >= 1,
        ;
        assert(big / rate <= big / 2) by {
            vstd::arithmetic::div_mod::lemma_div_is_ordered_by_denominator(big as int, 2, rate as int);
        }
        assert(big / 2 + 1 <= big);
        assert(div_round_even(big, rate) <= big);
    }
    let q = div_round_even(big, rate);
    assert(1_000_000_000 * q <= 1_000_000_000 * big) by (nonlinear_arith)
        requires
            q <= big,
    ;
    lemma_round_even_at_most(1_000_000_000 * q, big, 1_000_000_000);
}

/// What a pump leaves banked is always less than one step: every whole step that fits in the
/// (capped) bank is run, and a bank that reaches the catch-up limit is used up exactly. When
/// the catch-up limit's span fits in a duration, the steps run are exactly the whole steps in
/// the bank, which is the banked time capped at that span.
pub proof fn lemma_residual_below_step(accumulated: nat, elapsed: nat, step: nat, max: nat)
    requires
        step > 0,
    ensures
        step * max <= duration_max_nanos() ==> steps_for(
            banked_time(accumulated, elapsed, step, max),
            step,
            max,
        ) == banked_time(accumulated, elapsed, step, max) / step && banked_time(
            accumulated,
            elapsed,
            step,
            max,
        ) <= step * max,
        banked_time(accumulated, elapsed, step, max) - steps_for(
            banked_time(accumulated, elapsed, step, max),
            step,
            max,
        ) * step < step,
        steps_for(banked_time(accumulated, elapsed, step, max), step, max) * step <= banked_time(
            accumulated,
            elapsed,
            step,
            max,
        ),
{
    let banked = banked_time(accumulated, elapsed, step, max);
    assert(banked <= backlog_cap(step, max));
    vstd::arithmetic::div_mod::lemma_fundamental_div_mod(banked as int, step as int);
    let q = banked / step;
    vstd::arithmetic::mul::lemma_mul_is_commutative(q as int, step as int);
    if q >= max {
        vstd::arithmetic::mul::lemma_mul_inequality(max as int, q as int, step as int);
        vstd::arithmetic::mul::lemma_mul_is_commutative(max as int, step as int);
        assert(banked >= max * step);
        assert(banked <= max * step);
        if step * max <= duration_max_nanos() {
            assert(banked == max * step);
            vstd::arithmetic::div_mod::lemma_div_by_multiple(max as int, step as int);
        }
    }
}

} // verus!
