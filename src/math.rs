//! Integer helpers used by the frame geometry.
use vstd::prelude::*;
use vstd::arithmetic::power2::pow2;
use vstd::arithmetic::power2::lemma_pow2_pos;
use vstd::arithmetic::div_mod::lemma_fundamental_div_mod;
use vstd::bits::lemma_usize_shl_is_mul;
use vstd::bits::lemma_usize_pow2_no_overflow;

verus! {

/// `value` rounded up to the next multiple of `2^n`.
pub open spec fn align_up(value: nat, n: nat) -> nat {
    let a = pow2(n) as int;
    ((value + a - 1) / a * a) as nat
}

/// The aligned value is a multiple of the boundary, no smaller than the input,
/// and less than one boundary above it: it is the smallest such multiple.
pub proof fn lemma_align_up(value: nat, n: nat)
    ensures
        align_up(value, n) % pow2(n) == 0,
        value <= align_up(value, n),
        align_up(value, n) < value + pow2(n),
{
    let a = pow2(n) as int;
    lemma_pow2_pos(n);
    let q = (value + a - 1) / a;
    let r = (value + a - 1) % a;
    lemma_fundamental_div_mod(value + a - 1, a);
    assert(0 <= r < a);
    assert(q * a == value + a - 1 - r);
    assert((q * a) % a == 0) by (nonlinear_arith)
        requires a > 0;
}

/// Rounds `value` up to the next multiple of `2^n`.
pub fn align_power_of_two(value: usize, n: usize) -> (r: usize)
    requires
        n < usize::BITS,
        value + pow2(n as nat) - 1 <= usize::MAX,
    ensures
        r == align_up(value as nat, n as nat),
{
    proof {
        lemma_usize_pow2_no_overflow(n as nat);
        lemma_usize_shl_is_mul(1, n);
    }
    let a: usize = 1usize << n;
    assert(a == pow2(n as nat));
    let q: usize = (value + (a - 1)) / a;
    proof {
        lemma_align_up(value as nat, n as nat);
    }
    q * a
}

} // verus!
