use vstd::prelude::*;
use vstd::arithmetic::div_mod::{
    lemma_div_by_multiple, lemma_div_by_multiple_is_strongly_ordered, lemma_div_is_ordered,
    lemma_div_pos_is_pos, lemma_fundamental_div_mod, lemma_mod_pos_bound,
};
use vstd::arithmetic::mul::{lemma_mul_inequality, lemma_mul_nonnegative};

use crate::account::Account;

verus! {

/// The stored vesting schedule.
pub struct VestingConfig {
    pub token: Account,
    pub beneficiary: Account,
    pub admin: Account,
    pub total_amount: i128,
    pub start_time: u64,
    pub cliff_seconds: u64,
    pub duration_seconds: u64,
    pub cancelled: bool,
}

/// The mathematical value of a [`VestingConfig`]: addresses as strkey bytes.
#[verifier::ext_equal]
pub struct ConfigView {
    pub token: Seq<u8>,
    pub beneficiary: Seq<u8>,
    pub admin: Seq<u8>,
    pub total_amount: i128,
    pub start_time: u64,
    pub cliff_seconds: u64,
    pub duration_seconds: u64,
    pub cancelled: bool,
}

impl View for VestingConfig {
    type V = ConfigView;

    open spec fn view(&self) -> ConfigView {
        ConfigView {
            token: self.token@,
            beneficiary: self.beneficiary@,
            admin: self.admin@,
            total_amount: self.total_amount,
            start_time: self.start_time,
            cliff_seconds: self.cliff_seconds,
            duration_seconds: self.duration_seconds,
            cancelled: self.cancelled,
        }
    }
}

impl Clone for VestingConfig {
    fn clone(&self) -> (c: Self)
        ensures
            c@ == self@,
    {
        VestingConfig {
            token: self.token.clone(),
            beneficiary: self.beneficiary.clone(),
            admin: self.admin.clone(),
            total_amount: self.total_amount,
            start_time: self.start_time,
            cliff_seconds: self.cliff_seconds,
            duration_seconds: self.duration_seconds,
            cancelled: self.cancelled,
        }
    }
}

impl ConfigView {
    /// A schedule that `initialize` accepts: a positive amount, a positive
    /// duration and a cliff that does not outlast it.
    pub open spec fn valid(self) -> bool {
        &&& self.total_amount > 0
        &&& self.duration_seconds > 0
        &&& self.cliff_seconds <= self.duration_seconds
    }

    /// Seconds since the start, or zero before the start.
    pub open spec fn elapsed(self, now: u64) -> int {
        if now >= self.start_time {
            now - self.start_time
        } else {
            0
        }
    }

    /// Whether the cliff has passed at `now`.
    pub open spec fn cliff_reached(self, now: u64) -> bool {
        self.elapsed(now) >= self.cliff_seconds
    }

    /// The amount vested at `now`: nothing once cancelled or before the
    /// cliff, everything once the duration has passed, and in between the
    /// share of the total that the elapsed time is of the duration,
    /// rounded down.
    pub open spec fn vested(self, now: u64) -> int {
        if self.cancelled {
            0
        } else if self.elapsed(now) < self.cliff_seconds {
            0
        } else if self.elapsed(now) >= self.duration_seconds {
            self.total_amount as int
        } else {
            (self.total_amount * self.elapsed(now)) / (self.duration_seconds as int)
        }
    }

    /// Whether computing the vested amount at `now` stays within `i128`:
    /// only the linear part multiplies, the total by the elapsed seconds.
    pub open spec fn product_fits(self, now: u64) -> bool {
        ||| self.cancelled
        ||| self.elapsed(now) < self.cliff_seconds
        ||| self.elapsed(now) >= self.duration_seconds
        ||| self.total_amount * self.elapsed(now) <= i128::MAX
    }
}

/// The amount of a valid schedule that has vested at `now`.
pub(crate) fn compute_vested(config: &VestingConfig, now: u64) -> (v: i128)
    requires
        config@.valid(),
        config@.product_fits(now),
    ensures
        v == config@.vested(now),
        0 <= v <= config.total_amount,
{
    proof {
        lemma_vested_within_total(config@, now);
    }
    if config.cancelled {
        return 0;
    }
    let elapsed = now.saturating_sub(config.start_time);
    if elapsed < config.cliff_seconds {
        return 0;
    }
    if elapsed >= config.duration_seconds {
        return config.total_amount;
    }
    proof {
        lemma_mul_nonnegative(config.total_amount as int, elapsed as int);
    }
    (config.total_amount * (elapsed as i128)) / (config.duration_seconds as i128)
}

/// Whether the vested amount of `config` at `now` can be computed in `i128`.
pub fn product_fits(config: &VestingConfig, now: u64) -> (r: bool)
    requires
        config@.valid(),
    ensures
        r == config@.product_fits(now),
{
    if config.cancelled {
        return true;
    }
    let elapsed = now.saturating_sub(config.start_time);
    if elapsed < config.cliff_seconds || elapsed >= config.duration_seconds {
        return true;
    }
    proof {
        lemma_mul_nonnegative(config.total_amount as int, elapsed as int);
    }
    config.total_amount.checked_mul(elapsed as i128).is_some()
}

/// The vested amount of a valid schedule lies between nothing and the total.
pub proof fn lemma_vested_within_total(c: ConfigView, now: u64)
    requires
        c.valid(),
    ensures
        0 <= c.vested(now) <= c.total_amount,
{
    let e = c.elapsed(now);
    let t = c.total_amount as int;
    let d = c.duration_seconds as int;
    if !c.cancelled && c.cliff_seconds <= e && e < d {
        lemma_mul_nonnegative(t, e);
        lemma_div_pos_is_pos(t * e, d);
        lemma_mul_inequality(e, d, t);
        assert(e * t == t * e) by (nonlinear_arith);
        assert(d * t == t * d) by (nonlinear_arith);
        lemma_div_is_ordered(t * e, t * d, d);
        lemma_div_by_multiple(t, d);
    }
}

/// Vesting never goes backwards: for a valid schedule, a later time has at
/// least as much vested as an earlier one.
pub proof fn lemma_vested_monotonic(c: ConfigView, t1: u64, t2: u64)
    requires
        c.valid(),
        t1 <= t2,
    ensures
        c.vested(t1) <= c.vested(t2),
{
    lemma_vested_within_total(c, t1);
    lemma_vested_within_total(c, t2);
    let e1 = c.elapsed(t1);
    let e2 = c.elapsed(t2);
    let t = c.total_amount as int;
    let d = c.duration_seconds as int;
    assert(e1 <= e2);
    if !c.cancelled && c.cliff_seconds <= e1 && e1 < d && e2 < d {
        lemma_mul_inequality(e1, e2, t);
        assert(e1 * t == t * e1) by (nonlinear_arith);
        assert(e2 * t == t * e2) by (nonlinear_arith);
        lemma_div_is_ordered(t * e1, t * e2, d);
    }
}

/// The vested amount of a valid schedule: nothing once cancelled or before
/// the cliff, the whole total once the duration has passed, and in between
/// the largest amount `v` with `v * duration <= total * elapsed`, which is
/// strictly less than the total.
pub proof fn lemma_vested_is_floor_share(c: ConfigView, now: u64)
    requires
        c.valid(),
    ensures
        c.cancelled ==> c.vested(now) == 0,
        !c.cancelled && c.elapsed(now) < c.cliff_seconds ==> c.vested(now) == 0,
        !c.cancelled && c.elapsed(now) >= c.duration_seconds ==> c.vested(now) == c.total_amount,
        !c.cancelled && c.cliff_seconds <= c.elapsed(now) < c.duration_seconds ==> {
            &&& c.vested(now) * c.duration_seconds <= c.total_amount * c.elapsed(now)
            &&& c.total_amount * c.elapsed(now) < (c.vested(now) + 1) * c.duration_seconds
            &&& c.vested(now) < c.total_amount
        },
{
    let e = c.elapsed(now);
    let t = c.total_amount as int;
    let d = c.duration_seconds as int;
    if !c.cancelled && c.cliff_seconds <= e && e < d {
        let x = t * e;
        lemma_mul_nonnegative(t, e);
        lemma_fundamental_div_mod(x, d);
        lemma_mod_pos_bound(x, d);
        let q = x / d;
        assert(q * d == d * q) by (nonlinear_arith);
        assert((q + 1) * d == q * d + d) by (nonlinear_arith);
        assert(x < t * d) by (nonlinear_arith)
            requires
                e < d,
                t > 0,
                x == t * e,
        ;
        lemma_div_by_multiple_is_strongly_ordered(x, t * d, t, d);
        lemma_div_by_multiple(t, d);
    }
}

} // verus!
