use vstd::prelude::*;
use vstd::arithmetic::power2::{pow2, lemma_pow2_adds, lemma_pow2_strictly_increases, lemma2_to64,
    lemma2_to64_rest};
use vstd::arithmetic::mul::{lemma_mul_inequality, lemma_mul_strict_inequality,
    lemma_mul_is_associative};

verus! {

/// The position of the highest set bit of `n`: zero for `n` below two, and one
/// more than that of `n / 2` otherwise.
pub open spec fn highest_bit(n: nat) -> nat
    decreases n,
{
    if n < 2 {
        0
    } else {
        1 + highest_bit(n / 2)
    }
}

/// For positive `n`, `highest_bit` names the unique `e` with
/// `pow2(e) <= n < pow2(e + 1)`.
pub proof fn lemma_highest_bit_bounds(n: nat)
    requires
        1 <= n,
    ensures
        pow2(highest_bit(n)) <= n < pow2(highest_bit(n) + 1),
    decreases n,
{
    lemma2_to64();
    if n >= 2 {
        let e = highest_bit(n / 2);
        lemma_highest_bit_bounds(n / 2);
        lemma_pow2_adds(e, 1);
        lemma_pow2_adds(e + 1, 1);
        assert(pow2(e) <= n / 2 < pow2(e + 1));
        assert(pow2(e + 1) == 2 * pow2(e));
        assert(pow2(e + 2) == 2 * pow2(e + 1));
        assert(2 * (n / 2) <= n < 2 * (n / 2) + 2);
    }
}

/// The bit pattern of the IEEE-754 double that holds the integer `n`, for
/// `n` below `pow2(53)`, where the encoding is exact: the exponent field is
/// 1023 plus the position of the highest set bit, and the 52-bit mantissa
/// field holds `n` shifted up until that bit drops out. Zero encodes as all
/// zero bits. (For larger `n` a double would round, and this function is not
/// meaningful.)
pub open spec fn double_bits_of(n: nat) -> u64 {
    if n == 0 {
        0u64
    } else {
        let e = highest_bit(n);
        (((1023 + e) * pow2(52) + (n * pow2((52 - e) as nat) - pow2(52))) as u64)
    }
}

/// Computes the exact IEEE-754 double bit pattern of an integer that a double
/// can hold without rounding.
pub fn double_bits_of_int(n: u64) -> (r: u64)
    requires
        n < 0x20000000000000,
    ensures
        r == double_bits_of(n as nat),
{
    if n == 0 {
        return 0u64;
    }
    proof {
        lemma2_to64();
    }
    let mut e: u64 = 0;
    let mut m: u64 = n;
    while m >= 2
        invariant
            1 <= m <= n,
            highest_bit(n as nat) == e + highest_bit(m as nat),
            pow2(e as nat) * (m as nat) <= n as nat,
        decreases m,
    {
        proof {
            lemma2_to64();
            lemma2_to64_rest();
            assert(highest_bit(m as nat) == 1 + highest_bit((m / 2) as nat));
            lemma_pow2_adds(e as nat, 1);
            assert(pow2(e as nat + 1) * ((m / 2) as nat) <= pow2(e as nat) * (m as nat))
                by (nonlinear_arith)
                requires
                    pow2(e as nat + 1) == 2 * pow2(e as nat),
                    m as nat >= 2,
            ;
            assert(pow2(e as nat) <= n as nat) by (nonlinear_arith)
                requires
                    pow2(e as nat) * (m as nat) <= n as nat,
                    m as nat >= 1,
                    pow2(e as nat) >= 0,
            ;
            if e >= 64 {
                if e > 64 {
                    lemma_pow2_strictly_increases(64, e as nat);
                }
                assert(false);
            }
        }
        m = m / 2;
        e = e + 1;
    }
    proof {
        assert(highest_bit(n as nat) == e);
        lemma_highest_bit_bounds(n as nat);
        lemma2_to64();
        lemma2_to64_rest();
        if e > 52 {
            lemma_pow2_strictly_increases(53, e as nat);
            assert(false);
        }
    }
    let ghost eg: nat = e as nat;
    let mut v: u64 = n;
    let mut j: u64 = 0;
    while j < 52 - e
        invariant
            e <= 52,
            j <= 52 - e,
            highest_bit(n as nat) == eg,
            e == eg,
            1 <= n < pow2(eg + 1),
            v == n * pow2(j as nat),
            v < pow2(eg + 1 + j as nat),
            pow2(eg + 1 + j as nat) <= pow2(53),
        decreases 52 - e - j,
    {
        proof {
            lemma2_to64();
            lemma2_to64_rest();
            assert(pow2(eg + 1 + j as nat) <= pow2(53)) by {
                if eg + 1 + j < 53 {
                    lemma_pow2_strictly_increases(eg + 1 + j as nat, 53);
                }
            }
            assert(v < 0x20000000000000);
            lemma_pow2_adds(j as nat, 1);
            lemma_mul_is_associative(n as int, pow2(j as nat) as int, 2);
            assert(2 * v == n * pow2(j as nat + 1));
            lemma_pow2_adds(eg + 1 + j as nat, 1);
            lemma_mul_strict_inequality(v as int, pow2(eg + 1 + j as nat) as int, 2);
            assert(2 * v < pow2(eg + 1 + j as nat + 1));
            assert(eg + 1 + (j as nat + 1) <= 53);
            assert(pow2(eg + 1 + j as nat + 1) <= pow2(53)) by {
                if eg + 1 + j + 1 < 53 {
                    lemma_pow2_strictly_increases(eg + 1 + j as nat + 1, 53);
                }
            }
        }
        v = v * 2;
        j = j + 1;
    }
    proof {
        lemma2_to64();
        lemma2_to64_rest();
        assert(v == n * pow2((52 - eg) as nat));
        lemma_highest_bit_bounds(n as nat);
        lemma_mul_inequality(pow2(eg) as int, n as int, pow2((52 - eg) as nat) as int);
        lemma_pow2_adds(eg, (52 - eg) as nat);
        assert(pow2(52) == pow2(eg) * pow2((52 - eg) as nat));
        assert(v >= pow2(52));
        assert(v < pow2(53));
    }
    let exponent_field: u64 = (1023 + e) * 0x10000000000000;
    let r: u64 = exponent_field + (v - 0x10000000000000);
    proof {
        assert(r == double_bits_of(n as nat));
    }
    r
}

} // verus!
