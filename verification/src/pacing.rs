//! The pacing plan: what a client's token bucket is built from. The figures
//! are those of a `governor` quota.

use crate::config::ClientConfig;
use crate::config::ConfigView;
use governor::Quota;
use std::num::NonZeroU32;
use vstd::prelude::*;

verus! {

/// Nanoseconds in a second.
pub const NANOS_PER_SECOND: u64 = 1_000_000_000;

/// Calls `Quota::per_second` and `Quota::allow_burst`, and reads the quota
/// back with `burst_size` and `replenish_interval`, in nanoseconds. The quota
/// holds the burst size that it was given, and replenishes one cell in the
/// whole nanoseconds of a second divided by the cells per second. Neither
/// number may be zero: `requires` says so.
#[verifier::external_body]
fn quota_figures(refill_per_second: u32, capacity: u32) -> (r: (u32, u64))
    requires
        refill_per_second > 0,
        capacity > 0,
    ensures
        r.0 == capacity,
        r.1 == NANOS_PER_SECOND as int / (refill_per_second as int),
{
    let quota = Quota::per_second(NonZeroU32::new(refill_per_second).unwrap()).allow_burst(
        NonZeroU32::new(capacity).unwrap(),
    );
    (quota.burst_size().get(), quota.replenish_interval().as_nanos() as u64)
}

/// The figures of a token bucket: it holds up to `capacity` tokens and gains
/// `refill_per_second` tokens a second, one at a time.
#[derive(Debug, Clone, Copy)]
pub struct PacingPlan {
    refill_per_second: u32,
    capacity: u32,
    replenish_nanos: u64,
}

/// The mathematical value of a `PacingPlan`.
pub struct PlanView {
    pub refill_per_second: nat,
    pub capacity: nat,
}

impl PlanView {
    /// The whole nanoseconds after which an empty bucket holds a token again.
    pub open spec fn replenish_interval_nanos(self) -> nat {
        NANOS_PER_SECOND as nat / self.refill_per_second
    }
}

/// The plan for a rate limit and a burst size: none where the rate limit is
/// zero, whatever the burst size; else a bucket that refills at the rate
/// limit and holds the burst size, and one token where that is zero.
pub open spec fn planned(rate_limit: u8, burst_size: u8) -> Option<PlanView> {
    if rate_limit == 0 {
        None
    } else {
        Some(
            PlanView {
                refill_per_second: rate_limit as nat,
                capacity: if burst_size == 0 {
                    1
                } else {
                    burst_size as nat
                },
            },
        )
    }
}

impl View for PacingPlan {
    type V = PlanView;

    closed spec fn view(&self) -> PlanView {
        PlanView {
            refill_per_second: self.refill_per_second as nat,
            capacity: self.capacity as nat,
        }
    }
}

impl PacingPlan {
    #[verifier::type_invariant]
    spec fn well_formed(self) -> bool {
        &&& self.refill_per_second > 0
        &&& self.capacity > 0
        &&& self.replenish_nanos == NANOS_PER_SECOND as int / (self.refill_per_second as int)
    }

    /// The plan for a rate limit and a burst size.
    pub fn for_limits(rate_limit: u8, burst_size: u8) -> (plan: Option<PacingPlan>)
        ensures
            plan.deep_view() == planned(rate_limit, burst_size),
    {
        if rate_limit == 0 {
            None
        } else {
            let wanted: u32 = if burst_size == 0 {
                1
            } else {
                burst_size as u32
            };
            let (capacity, replenish_nanos) = quota_figures(rate_limit as u32, wanted);
            Some(PacingPlan { refill_per_second: rate_limit as u32, capacity, replenish_nanos })
        }
    }

    /// Tokens gained in a second. Never zero.
    pub fn refill_per_second(&self) -> (n: u32)
        ensures
            n == self@.refill_per_second,
            n > 0,
    {
        proof {
            use_type_invariant(self);
        }
        self.refill_per_second
    }

    /// The most tokens that the bucket holds. Never zero.
    pub fn capacity(&self) -> (n: u32)
        ensures
            n == self@.capacity,
            n > 0,
    {
        proof {
            use_type_invariant(self);
        }
        self.capacity
    }

    /// The whole nanoseconds after which an empty bucket holds a token again.
    pub fn replenish_interval_nanos(&self) -> (n: u64)
        ensures
            n == self@.replenish_interval_nanos(),
    {
        proof {
            use_type_invariant(self);
        }
        self.replenish_nanos
    }
}

impl DeepView for PacingPlan {
    type V = PlanView;

    open spec fn deep_view(&self) -> PlanView {
        self@
    }
}

impl ClientConfig {
    /// The plan for the client's limiter, or `None` where requests are not
    /// paced.
    pub fn pacing(&self) -> (plan: Option<PacingPlan>)
        ensures
            plan.deep_view() == planned(self@.rate_limit, self@.burst_size),
    {
        PacingPlan::for_limits(self.rate_limit, self.burst_size)
    }
}

/// Whatever the burst size, a rate limit of zero leaves requests unpaced; a
/// rate limit above zero gives a bucket of at least one token that gains a
/// token every `1 / rate_limit` seconds, in whole nanoseconds.
pub proof fn lemma_plan_follows_limits(config: ConfigView)
    ensures
        planned(config.rate_limit, config.burst_size) is Some <==> config.is_paced(),
        planned(config.rate_limit, config.burst_size) matches Some(plan) ==> {
            &&& plan.capacity >= 1
            &&& plan.capacity >= config.burst_size
            &&& plan.refill_per_second == config.rate_limit
            &&& plan.replenish_interval_nanos() * config.rate_limit <= NANOS_PER_SECOND
            &&& NANOS_PER_SECOND < (plan.replenish_interval_nanos() + 1) * config.rate_limit
        },
{
    if config.rate_limit > 0 {
        let rate = config.rate_limit as int;
        let second = NANOS_PER_SECOND as int;
        let interval = second / rate;
        assert(interval * rate <= second < (interval + 1) * rate) by (nonlinear_arith)
            requires
                rate > 0,
                interval == second / rate,
        ;
    }
}

} // verus!
