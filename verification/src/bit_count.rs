//! Counting the set bits of a word.
use vstd::prelude::*;

verus! {

/// The number of ones in the binary representation of `x`.
pub open spec fn ones(x: nat) -> nat
    decreases x,
{
    if x == 0 {
        0
    } else {
        (x % 2) + ones(x / 2)
    }
}

/// The number of ones in the binary representation of `x`.
pub fn count_ones(x: u32) -> (r: u32)
    ensures
        r as nat == ones(x as nat),
{
    proof {
        lemma_ones_u32(x);
    }
    let mut rest: u32 = x;
    let mut n: u32 = 0;
    while rest != 0
        invariant
            n as nat + ones(rest as nat) == ones(x as nat),
            ones(x as nat) <= 32,
        decreases rest,
    {
        n = n + rest % 2;
        rest = rest / 2;
    }
    n
}

/// A number below `2^n` has at most `n` ones.
pub proof fn lemma_ones_bound(x: nat, n: nat)
    requires
        x < vstd::arithmetic::power2::pow2(n),
    ensures
        ones(x) <= n,
    decreases n,
{
    if n == 0 {
        vstd::arithmetic::power2::lemma2_to64();
        assert(x == 0);
    } else {
        vstd::arithmetic::power2::lemma_pow2_unfold(n);
        lemma_ones_bound(x / 2, (n - 1) as nat);
    }
}

/// A 32-bit word has at most 32 ones.
pub proof fn lemma_ones_u32(x: u32)
    ensures
        ones(x as nat) <= 32,
{
    vstd::arithmetic::power2::lemma2_to64();
    lemma_ones_bound(x as nat, 32);
}

} // verus!
