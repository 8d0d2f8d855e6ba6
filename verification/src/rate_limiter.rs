//! Token-bucket admission control: one shared, unkeyed budget per client.
//! The budget holds up to `rate + burst` tokens and refills continuously at
//! `rate` tokens per second; every outbound request takes one token.
//!
//! The bucket itself only decides — granted, or wait this long — against a
//! caller-supplied clock reading, so the accounting is exact and checkable;
//! the surrounding runtime sleeps and retries.

use vstd::prelude::*;

verus! {

/// One admission decision: a token was taken, or the caller must wait the
/// given number of microseconds before one can be available.
#[derive(PartialEq, Eq, Structural, Clone, Copy, Debug)]
pub enum Admission {
    Granted,
    Wait(u64),
}

/// A token bucket. Budget is accounted in millionths of a token so that the
/// continuous refill is exact at microsecond resolution.
pub struct RateLimiter {
    /// Steady refill rate, tokens per second.
    pub rate: u32,
    /// Extra burst allowance above the steady rate.
    pub burst: u32,
    /// Available budget, in millionths of a token.
    pub tokens_micro: u64,
    /// The clock reading, in microseconds, of the last refill.
    pub last_micros: u64,
}

impl RateLimiter {
    /// Capacity, in millionths of a token.
    pub open spec fn spec_cap_micro(&self) -> int {
        (self.rate + self.burst) * 1_000_000
    }

    pub open spec fn wf(&self) -> bool {
        &&& self.rate >= 1
        &&& self.rate + self.burst <= u32::MAX
        &&& self.tokens_micro <= self.spec_cap_micro()
    }

    /// A fresh limiter starts with a full budget: `requests_per_second`
    /// tokens plus the burst allowance, as one bucket.
    pub fn new(requests_per_second: u32, burst_size: u32) -> (r: RateLimiter)
        requires
            1 <= requests_per_second,
            requests_per_second + burst_size <= u32::MAX,
        ensures
            r.wf(),
            r.rate == requests_per_second,
            r.burst == burst_size,
            r.tokens_micro == r.spec_cap_micro(),
            r.last_micros == 0,
    {
        let cap: u64 = (requests_per_second as u64 + burst_size as u64) * 1_000_000;
        RateLimiter { rate: requests_per_second, burst: burst_size, tokens_micro: cap, last_micros: 0 }
    }

    /// Draw one token at clock reading `now_micros`, refilling first; when
    /// the budget is short, report how long until one token has accrued.
    pub fn try_acquire(&mut self, now_micros: u64) -> (r: Admission)
        requires
            old(self).wf(),
        ensures
            final(self).wf(),
            (*final(self), r) == spec_admit(*old(self), now_micros),
    {
        let elapsed: u64 = if now_micros > self.last_micros {
            now_micros - self.last_micros
        } else {
            0
        };
        let cap: u64 = (self.rate as u64 + self.burst as u64) * 1_000_000;
        proof {
            vstd::arithmetic::mul::lemma_mul_upper_bound(
                elapsed as int,
                0xFFFF_FFFF_FFFF_FFFF,
                self.rate as int,
                0xFFFF_FFFF,
            );
        }
        let added: u128 = (elapsed as u128) * (self.rate as u128);
        let filled: u128 = self.tokens_micro as u128 + added;
        let capped: u64 = if filled > cap as u128 {
            cap
        } else {
            filled as u64
        };
        self.tokens_micro = capped;
        if now_micros > self.last_micros {
            self.last_micros = now_micros;
        }
        if self.tokens_micro >= 1_000_000 {
            self.tokens_micro = self.tokens_micro - 1_000_000;
            Admission::Granted
        } else {
            let deficit: u64 = 1_000_000 - self.tokens_micro;
            let wait: u64 = (deficit + self.rate as u64 - 1) / self.rate as u64;
            Admission::Wait(wait)
        }
    }
}

/// The bucket after refilling at clock reading `now`: the elapsed time adds
/// `rate` millionths of a token per microsecond, capped at the capacity; a
/// clock that went backwards adds nothing.
pub open spec fn spec_refill(s: RateLimiter, now: u64) -> RateLimiter {
    let elapsed: int = if now > s.last_micros {
        now - s.last_micros
    } else {
        0
    };
    let filled: int = s.tokens_micro + elapsed * s.rate;
    let capped: int = if filled > s.spec_cap_micro() {
        s.spec_cap_micro()
    } else {
        filled
    };
    RateLimiter {
        rate: s.rate,
        burst: s.burst,
        tokens_micro: capped as u64,
        last_micros: if now > s.last_micros {
            now
        } else {
            s.last_micros
        },
    }
}

/// One admission step: refill, then either take one token or report the
/// exact time until one token has accrued (rounded up).
pub open spec fn spec_admit(s: RateLimiter, now: u64) -> (RateLimiter, Admission) {
    let f = spec_refill(s, now);
    if f.tokens_micro >= 1_000_000 {
        (
            RateLimiter {
                rate: f.rate,
                burst: f.burst,
                tokens_micro: (f.tokens_micro - 1_000_000) as u64,
                last_micros: f.last_micros,
            },
            Admission::Granted,
        )
    } else {
        let deficit: int = 1_000_000 - f.tokens_micro;
        (f, Admission::Wait(((deficit + f.rate - 1) / (f.rate as int)) as u64))
    }
}

/// The bucket after `k` consecutive admission attempts at one instant.
pub open spec fn spec_drain(s: RateLimiter, now: u64, k: nat) -> RateLimiter
    decreases k,
{
    if k == 0 {
        s
    } else {
        spec_admit(spec_drain(s, now, (k - 1) as nat), now).0
    }
}

/// After `k <= rate + burst` attempts at one instant against a full bucket,
/// exactly `k` whole tokens are gone, and every one of those attempts was
/// granted.
pub proof fn lemma_drain_from_full(s: RateLimiter, now: u64, k: nat)
    requires
        s.wf(),
        s.tokens_micro == s.spec_cap_micro(),
        k <= s.rate + s.burst,
    ensures
        spec_drain(s, now, k).rate == s.rate,
        spec_drain(s, now, k).burst == s.burst,
        spec_drain(s, now, k).tokens_micro == s.spec_cap_micro() - k * 1_000_000,
        spec_drain(s, now, k).last_micros == if k == 0 {
            s.last_micros as int
        } else {
            spec_refill(s, now).last_micros as int
        },
        k > 0 ==> spec_admit(spec_drain(s, now, (k - 1) as nat), now).1 == Admission::Granted,
    decreases k,
{
    vstd::arithmetic::mul::lemma_mul_nonnegative(
        if now > s.last_micros {
            now - s.last_micros
        } else {
            0
        },
        s.rate as int,
    );
    if k > 0 {
        lemma_drain_from_full(s, now, (k - 1) as nat);
    }
}

/// Exhausting the burst: against a full bucket the first `rate + burst`
/// acquisitions at one instant are all granted on the spot, and the next
/// one at the same instant is told to wait exactly one refill interval —
/// the time one whole token takes to accrue at the steady rate.
pub proof fn lemma_burst_exhaustion(s: RateLimiter, now: u64)
    requires
        s.wf(),
        s.tokens_micro == s.spec_cap_micro(),
    ensures
        forall|k: nat|
            k < s.rate + s.burst ==> #[trigger] spec_admit(spec_drain(s, now, k), now).1
                == Admission::Granted,
        spec_admit(spec_drain(s, now, (s.rate + s.burst) as nat), now).1 == Admission::Wait(
            (((1_000_000int + s.rate - 1) / (s.rate as int)) as u64),
        ),
{
    assert forall|k: nat|
        k < s.rate + s.burst implies #[trigger] spec_admit(spec_drain(s, now, k), now).1
        == Admission::Granted by {
        lemma_drain_from_full(s, now, (k + 1) as nat);
    }
    lemma_drain_from_full(s, now, (s.rate + s.burst) as nat);
    let drained = spec_drain(s, now, (s.rate + s.burst) as nat);
    assert(drained.tokens_micro == 0);
    vstd::arithmetic::mul::lemma_mul_nonnegative(
        if now > drained.last_micros {
            now - drained.last_micros
        } else {
            0
        },
        drained.rate as int,
    );
}

} // verus!
