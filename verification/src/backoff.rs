//! Exponential backoff: the pause between two fetch iterations.

use vstd::prelude::*;
use vstd::arithmetic::power2::pow2;
use vstd::arithmetic::power2::lemma_pow2_unfold;
use vstd::arithmetic::power2::lemma2_to64;
use vstd::arithmetic::power2::lemma_pow2_strictly_increases;

verus! {

/// The largest exponent the backoff uses: the failure count is capped here.
pub const MAX_BACKOFF_EXPONENT: u32 = 12;

/// The failure count as the backoff sees it: capped at `MAX_BACKOFF_EXPONENT`.
pub open spec fn capped_failures(failures: nat) -> nat {
    if failures <= MAX_BACKOFF_EXPONENT as nat {
        failures
    } else {
        MAX_BACKOFF_EXPONENT as nat
    }
}

/// The pause in milliseconds: the base delay doubled once per failure, at most
/// `MAX_BACKOFF_EXPONENT` times.
pub open spec fn backoff_delay(base_ms: nat, failures: nat) -> nat {
    base_ms * pow2(capped_failures(failures))
}

/// The pause never shrinks as failures add up, never passes the base delay
/// doubled `MAX_BACKOFF_EXPONENT` times, and is the base delay itself when no
/// failure is counted.
pub proof fn backoff_grows_to_cap(base_ms: nat, fewer: nat, more: nat)
    requires
        fewer <= more,
    ensures
        backoff_delay(base_ms, fewer) <= backoff_delay(base_ms, more),
        backoff_delay(base_ms, more) <= base_ms * 4096,
        backoff_delay(base_ms, more) <= backoff_delay(base_ms, MAX_BACKOFF_EXPONENT as nat),
        backoff_delay(base_ms, 0) == base_ms,
{
    lemma2_to64();
    let a = capped_failures(fewer);
    let b = capped_failures(more);
    if a < b {
        lemma_pow2_strictly_increases(a, b);
    }
    if b < 12 {
        lemma_pow2_strictly_increases(b, 12);
    }
    assert(base_ms * pow2(a) <= base_ms * pow2(b)) by (nonlinear_arith)
        requires
            pow2(a) <= pow2(b),
    ;
    assert(base_ms * pow2(b) <= base_ms * 4096) by (nonlinear_arith)
        requires
            pow2(b) <= 4096,
    ;
    assert(base_ms * pow2(0) == base_ms) by (nonlinear_arith)
        requires
            pow2(0) == 1,
    ;
}

/// Two to the power `exp`, the exponent capped at `MAX_BACKOFF_EXPONENT`.
pub fn pow2_capped(exp: u32) -> (r: u64)
    ensures
        r == pow2(capped_failures(exp as nat)),
        1 <= r <= 4096,
{
    let top: u32 = if exp <= MAX_BACKOFF_EXPONENT {
        exp
    } else {
        MAX_BACKOFF_EXPONENT
    };
    let mut r: u64 = 1;
    let mut i: u32 = 0;
    proof {
        lemma2_to64();
    }
    while i < top
        invariant
            i <= top <= MAX_BACKOFF_EXPONENT,
            r == pow2(i as nat),
            1 <= r <= 4096,
        decreases top - i,
    {
        proof {
            lemma2_to64();
            lemma_pow2_unfold((i + 1) as nat);
            if i + 1 < 12 {
                lemma_pow2_strictly_increases((i + 1) as nat, 12);
            }
        }
        r = r * 2;
        i = i + 1;
    }
    r
}

/// The largest base delay whose pause still fits the machine's integers.
pub const MAX_BASE_DELAY_MS: u64 = 0xf_ffff_ffff_ffff;

/// The pause in milliseconds after `failures` consecutive failures: the base
/// delay doubled once per failure, at most `MAX_BACKOFF_EXPONENT` times.
pub fn delay_ms(base_ms: u64, failures: u32) -> (d: u64)
    requires
        base_ms <= MAX_BASE_DELAY_MS,
    ensures
        d == backoff_delay(base_ms as nat, failures as nat),
{
    let factor: u64 = pow2_capped(failures);
    assert(base_ms * factor <= 0xf_ffff_ffff_ffff * 4096) by (nonlinear_arith)
        requires
            base_ms <= 0xf_ffff_ffff_ffff,
            factor <= 4096,
    ;
    base_ms * factor
}

} // verus!
