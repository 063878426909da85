//! Exact IEEE 754 single-precision bit patterns for small unsigned integers.
//!
//! The shader's scale uniform is a single-precision value, while the store
//! keeps the scale as an integer; the sync step therefore needs the bit
//! pattern of that integer as a single-precision number. Every integer below
//! two to the twenty-fourth is exactly representable, so its pattern is a
//! plain function of the integer: a biased exponent at the position of the
//! most significant bit, and the remaining bits shifted into the mantissa.

use vstd::prelude::*;
use vstd::arithmetic::power2::pow2;
use vstd::arithmetic::power2::lemma_pow2_adds;
use vstd::arithmetic::power2::lemma_pow2_strictly_increases;
use vstd::arithmetic::power2::lemma2_to64;
use vstd::arithmetic::mul::lemma_mul_inequality;
use vstd::arithmetic::mul::lemma_mul_is_distributive_sub_other_way;

verus! {

/// Position of the most significant set bit of `n`, zero for zero and one.
pub open spec fn msb_index(n: nat) -> nat
    decreases n,
{
    if n <= 1 {
        0
    } else {
        1 + msb_index(n / 2)
    }
}

/// The single-precision bit pattern of the integer `n`, for `n` at least one
/// and below two to the twenty-fourth: sign bit clear, biased exponent
/// `127 + msb_index(n)`, and the bits of `n` below its leading bit shifted to
/// the top of the twenty-three-bit mantissa.
pub open spec fn float_bits_of_uint(n: nat) -> nat
    recommends
        1 <= n < pow2(24),
{
    let e = msb_index(n);
    ((127 + e) * pow2(23) + (n * pow2((23 - e) as nat) - pow2(23))) as nat
}

/// The most significant bit position is the unique `e` with
/// `pow2(e) <= n < pow2(e + 1)`.
proof fn lemma_msb_index_unique(n: nat, e: nat)
    requires
        pow2(e) <= n < pow2(e + 1),
    ensures
        msb_index(n) == e,
    decreases e,
{
    lemma2_to64();
    if e == 0 {
        assert(n == 1);
    } else {
        lemma_pow2_adds(1, (e - 1) as nat);
        assert(pow2(e) == 2 * pow2((e - 1) as nat));
        lemma_pow2_adds(1, e);
        assert(pow2(e + 1) == 2 * pow2(e));
        assert(pow2((e - 1) as nat) <= n / 2 < pow2(e));
        lemma_msb_index_unique(n / 2, (e - 1) as nat);
        assert(n >= 2);
        assert(msb_index(n) == 1 + msb_index(n / 2));
    }
}

/// Computes the single-precision bit pattern of `n`, exactly the value a
/// conversion of `n` to a single-precision number would produce for this
/// range, stated as `float_bits_of_uint`.
pub fn float_bits_of_small(n: u32) -> (bits: u32)
    requires
        1 <= n < 0x100_0000,
    ensures
        bits == float_bits_of_uint(n as nat),
{
    proof {
        lemma2_to64();
    }
    let mut e: u32 = 0;
    let mut p: u32 = 1;
    while 2 * p <= n
        invariant
            1 <= n < 0x100_0000,
            p == pow2(e as nat),
            p <= n,
            e <= 23,
        decreases n - p,
    {
        proof {
            lemma2_to64();
            lemma_pow2_adds(e as nat, 1);
            if e + 1 > 23 {
                lemma_pow2_strictly_increases(23, (e + 1) as nat);
            }
        }
        p = 2 * p;
        e = e + 1;
    }
    proof {
        lemma_pow2_adds(e as nat, 1);
        assert(n < pow2((e + 1) as nat));
        lemma_msb_index_unique(n as nat, e as nat);
    }
    // q == pow2(23 - e), the mantissa shift for the leading bit position
    let ghost fixed_e: u32 = e;
    let mut q: u32 = 1;
    let mut i: u32 = e;
    while i < 23
        invariant
            e <= i <= 23,
            e == fixed_e,
            q == pow2((i - e) as nat),
        decreases 23 - i,
    {
        proof {
            lemma2_to64();
            lemma_pow2_adds((i - e) as nat, 1);
            if (i - e) + 1 > 23 {
                lemma_pow2_strictly_increases(23, ((i - e) + 1) as nat);
            }
        }
        q = 2 * q;
        i = i + 1;
    }
    assert(q == pow2((23 - e) as nat));
    proof {
        lemma2_to64();
        lemma_pow2_adds(e as nat, (23 - e) as nat);
        assert(pow2(e as nat) * pow2((23 - e) as nat) == pow2(23));
        // lower bound: pow2(23) <= n * q
        lemma_mul_inequality(pow2(e as nat) as int, n as int, q as int);
        // upper bound: n * q <= (pow2(e + 1) - 1) * q == pow2(24) - q
        lemma_mul_inequality(n as int, (pow2((e + 1) as nat) - 1) as int, q as int);
        lemma_mul_is_distributive_sub_other_way(q as int, pow2((e + 1) as nat) as int, 1);
        lemma_pow2_adds((e + 1) as nat, (23 - e) as nat);
        assert(pow2((e + 1) as nat) * pow2((23 - e) as nat) == pow2(24));
    }
    let m: u32 = n * q;
    assert(0x80_0000 <= m < 0x100_0000);
    let bits: u32 = (127 + e) * 0x80_0000 + (m - 0x80_0000);
    proof {
        lemma2_to64();
        assert(bits == float_bits_of_uint(n as nat));
    }
    bits
}

} // verus!
