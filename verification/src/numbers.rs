//! Whole numbers as double-precision numbers, held by their bits.

use vstd::arithmetic::power2::{
    lemma2_to64, lemma2_to64_rest, lemma_pow2_adds, lemma_pow2_pos, lemma_pow2_unfold, pow2,
};
use vstd::prelude::*;
use crate::sql::Real;

verus! {

/// The lowest significand of 53 bits: two to the power of 52.
pub const LEAST_SIGNIFICAND: u64 = 0x10_0000_0000_0000;

/// The exponent of a positive number: the number lies between two to its power and twice that.
pub open spec fn exponent(m: nat) -> nat
    decreases m,
{
    if m < 2 {
        0
    } else {
        1 + exponent(m / 2)
    }
}

/// How often `unit` goes into a number, to the nearest whole number; halves go to the even one.
pub open spec fn nearest(m: nat, unit: nat) -> nat {
    let times = m / unit;
    let rest = m % unit;
    if 2 * rest > unit || 2 * rest == unit && times % 2 == 1 {
        times + 1
    } else {
        times
    }
}

/// The significand of a positive number, rounded to 53 bits.
pub open spec fn significand(m: nat) -> nat {
    if exponent(m) <= 52 {
        m * pow2((52 - exponent(m)) as nat)
    } else {
        nearest(m, pow2((exponent(m) - 52) as nat))
    }
}

/// The bits of a number that is not negative. A significand that rounding carried beyond 53 bits
/// raises the exponent by one.
pub open spec fn magnitude_bits(m: nat) -> nat {
    if m == 0 {
        0
    } else {
        (exponent(m) + 1022) * (LEAST_SIGNIFICAND as nat) + significand(m)
    }
}

/// The bits of the double-precision number nearest to a whole number.
pub open spec fn whole_bits(n: int) -> nat {
    if n < 0 {
        magnitude_bits((-n) as nat) + 0x8000_0000_0000_0000nat
    } else {
        magnitude_bits(n as nat)
    }
}

/// The double-precision number nearest to a whole number.
pub open spec fn whole(n: int) -> Real {
    Real { bits: whole_bits(n) as u64 }
}

proof fn lemma_exponent(m: nat, e: nat)
    requires
        pow2(e) <= m < pow2(e + 1),
    ensures
        exponent(m) == e,
    decreases e,
{
    lemma2_to64();
    lemma_pow2_unfold(e + 1);
    if e > 0 {
        lemma_pow2_unfold(e);
        lemma_pow2_pos((e - 1) as nat);
        lemma_exponent(m / 2, (e - 1) as nat);
    }
}

fn magnitude(m: u64) -> (r: u64)
    requires
        m <= 0x8000_0000_0000_0000,
    ensures
        r == magnitude_bits(m as nat),
        r < 0x8000_0000_0000_0000,
{
    if m == 0 {
        return 0;
    }
    proof {
        lemma2_to64();
        lemma2_to64_rest();
    }
    let mut e: u64 = 52;
    if m < 2 * LEAST_SIGNIFICAND {
        let mut bits: u64 = m;
        proof {
            assert(pow2(0) == 1);
            assert(m * 1 == m);
        }
        while bits < LEAST_SIGNIFICAND
            invariant
                0 < bits < 2 * LEAST_SIGNIFICAND,
                0 < m,
                e <= 52,
                bits == m * pow2((52 - e) as nat),
                exponent(bits as nat) == exponent(m as nat) + (52 - e),
                pow2(52) == LEAST_SIGNIFICAND,
            decreases e,
        {
            proof {
                let k = (52 - e) as nat;
                lemma_pow2_unfold(k + 1);
                assert(2 * (m * pow2(k)) == m * (2 * pow2(k))) by (nonlinear_arith);
                assert((2 * bits) as nat / 2 == bits as nat);
                if e == 0 {
                    assert(m * pow2(52) >= pow2(52)) by (nonlinear_arith)
                        requires
                            m >= 1,
                            pow2(52) >= 0,
                    ;
                }
            }
            bits = 2 * bits;
            e = e - 1;
        }
        proof {
            lemma2_to64_rest();
            lemma_exponent(bits as nat, 52);
        }
        (e + 1022) * LEAST_SIGNIFICAND + bits
    } else {
        let mut unit: u64 = 1;
        while unit as u128 * 0x20_0000_0000_0000 <= m as u128
            invariant
                m <= 0x8000_0000_0000_0000,
                52 <= e,
                unit == pow2((e - 52) as nat),
                1 <= unit <= 0x800,
                m >= 0x10_0000_0000_0000 * unit,
                unit == 1 ==> m >= 0x20_0000_0000_0000,
                e <= 63,
                e == 63 ==> unit == 0x800,
            decreases m - unit,
        {
            proof {
                lemma_pow2_unfold((e - 52 + 1) as nat);
                lemma2_to64();
            }
            unit = 2 * unit;
            e = e + 1;
        }
        proof {
            lemma_pow2_adds(52, (e - 52) as nat);
            lemma_pow2_unfold((e + 1) as nat);
            lemma2_to64();
            lemma2_to64_rest();
            assert(pow2(e as nat) == 0x10_0000_0000_0000 * unit);
            lemma_exponent(m as nat, e as nat);
        }
        let times = m / unit;
        let rest = m % unit;
        proof {
            assert(0x10_0000_0000_0000 <= times <= 0x20_0000_0000_0000) by (nonlinear_arith)
                requires
                    times == m / unit,
                    0x10_0000_0000_0000 * unit <= m < 0x20_0000_0000_0000 * unit,
                    unit >= 1,
            ;
        }
        if 2 * rest > unit || 2 * rest == unit && times % 2 == 1 {
            (e + 1022) * LEAST_SIGNIFICAND + (times + 1)
        } else {
            (e + 1022) * LEAST_SIGNIFICAND + times
        }
    }
}

/// The double-precision number nearest to a whole number.
pub fn real_of(n: i64) -> (r: Real)
    ensures
        r == whole(n as int),
{
    if n < 0 {
        let m = magnitude((-(n as i128)) as u64);
        Real { bits: m + 0x8000_0000_0000_0000 }
    } else {
        Real { bits: magnitude(n as u64) }
    }
}

/// A whole number below two to the fifty-third power is kept as it is: its highest power of two is
/// in the exponent, and the number moved up to fifty-three binary digits in the significand. The
/// sign is told apart, and nought has no bits at all.
pub proof fn law_whole_numbers_keep_their_value(m: nat, e: nat)
    requires
        pow2(e) <= m < pow2(e + 1),
        e <= 52,
    ensures
        whole_bits(m as int) == (e + 1022) * 0x10_0000_0000_0000 + m * pow2((52 - e) as nat),
        whole_bits(-(m as int)) == whole_bits(m as int) + 0x8000_0000_0000_0000,
        whole_bits(0) == 0,
{
    lemma_exponent(m, e);
    lemma_pow2_pos(e);
}

/// A whole number that does not fit is rounded to the nearest multiple of a unit, and from the
/// middle of two to the even one.
pub proof fn law_whole_numbers_are_rounded_to_the_nearest(m: nat, unit: nat)
    requires
        unit > 0,
    ensures
        -(unit as int) <= 2 * (nearest(m, unit) * unit - m) <= unit,
        2 * (nearest(m, unit) * unit - m) == unit || 2 * (nearest(m, unit) * unit - m) == -(
        unit as int) ==> nearest(m, unit) % 2 == 0,
{
    let times = m / unit;
    let rest = m % unit;
    assert(times * unit + rest == m && 0 <= rest < unit) by (nonlinear_arith)
        requires
            unit > 0,
            times == m / unit,
            rest == m % unit,
    ;
    assert((times + 1) * unit == times * unit + unit) by (nonlinear_arith);
}

} // verus!
