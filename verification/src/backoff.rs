//! Exponential backoff delays for the retry loop.
//!
//! The delay before retry attempt `attempt` is `base * 2^attempt`
//! milliseconds, clamped back to `base` whenever the doubling can no longer be
//! represented (a shift of 32 or more, or a multiplication that overflows),
//! so the delay never wraps to zero and never panics.

use vstd::prelude::*;

verus! {

use vstd::arithmetic::power2::pow2;
use vstd::arithmetic::power2::lemma_pow2_strictly_increases;
use vstd::arithmetic::power2::lemma_pow2_pos;
use vstd::bits::lemma_u64_shl_is_mul;
use vstd::bits::lemma_u64_pow2_no_overflow;

/// The delay, in milliseconds, before the retry numbered `attempt`.
///
/// `base * 2^attempt`, except that an exponent of 32 or more, or a product
/// that does not fit in a `u64`, falls back to `base` itself.
pub open spec fn spec_backoff_ms(base: u64, attempt: nat) -> u64 {
    if attempt >= 32 {
        base
    } else if base * pow2(attempt) <= u64::MAX {
        (base * pow2(attempt)) as u64
    } else {
        base
    }
}

/// Compute the backoff delay for one retry attempt.
pub fn backoff_delay_ms(base_ms: u64, attempt: usize) -> (r: u64)
    ensures
        r == spec_backoff_ms(base_ms, attempt as nat),
{
    if attempt >= 32 {
        base_ms
    } else {
        let shift: u64 = attempt as u64;
        proof {
            lemma_u64_pow2_no_overflow(shift as nat);
            lemma_u64_shl_is_mul(1u64, shift);
        }
        let mult: u64 = 1u64 << shift;
        match base_ms.checked_mul(mult) {
            Some(v) => v,
            None => base_ms,
        }
    }
}

/// The computed delay is never zero when the base delay is positive, and on
/// every attempt where the doubling still fits it equals `base * 2^attempt`
/// exactly; everywhere else it equals `base`.
pub proof fn lemma_backoff_growth(base: u64, attempt: nat)
    ensures
        base > 0 ==> spec_backoff_ms(base, attempt) > 0,
        attempt < 32 && base * pow2(attempt) <= u64::MAX ==> spec_backoff_ms(base, attempt)
            == base * pow2(attempt),
        attempt >= 32 || base * pow2(attempt) > u64::MAX ==> spec_backoff_ms(base, attempt)
            == base,
{
    if attempt < 32 {
        lemma_pow2_pos(attempt);
        if base > 0 {
            assert(base * pow2(attempt) > 0) by (nonlinear_arith)
                requires
                    base > 0,
                    pow2(attempt) > 0,
            ;
        }
    }
}

/// Doubling: as long as the next product still fits, each attempt's delay is
/// exactly twice the previous one.
pub proof fn lemma_backoff_doubles(base: u64, attempt: nat)
    requires
        attempt + 1 < 32,
        base * pow2(attempt + 1) <= u64::MAX,
    ensures
        spec_backoff_ms(base, attempt + 1) == 2 * spec_backoff_ms(base, attempt),
{
    lemma_pow2_strictly_increases(attempt, attempt + 1);
    assert(pow2(attempt + 1) == 2 * pow2(attempt)) by {
        vstd::arithmetic::power2::lemma_pow2_unfold(attempt + 1);
    }
    assert(base * (2 * pow2(attempt)) == 2 * (base * pow2(attempt))) by (nonlinear_arith);
}

} // verus!
