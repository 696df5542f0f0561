//! Integers among the 64-bit floating point numbers.
//!
//! A floating point number is given by its bits in the IEEE 754 format: a sign bit, eleven
//! exponent bits and 52 fraction bits. Its magnitude is an integer significand times a power
//! of two, so whether it is an integer is a question of integer arithmetic.

use vstd::prelude::*;

verus! {

/// Whether the sign bit is set.
pub open spec fn is_signed(bits: u64) -> bool {
    bits >= 0x8000_0000_0000_0000
}

/// The exponent field.
pub open spec fn exponent_field(bits: u64) -> int {
    (bits as int / 0x10_0000_0000_0000) % 2048
}

/// The fraction field.
pub open spec fn fraction_field(bits: u64) -> int {
    bits as int % 0x10_0000_0000_0000
}

/// Whether the number is neither infinite nor undefined.
pub open spec fn is_finite(bits: u64) -> bool {
    exponent_field(bits) != 2047
}

/// The integer significand: the fraction, with the hidden bit unless the number is subnormal.
pub open spec fn significand(bits: u64) -> int {
    if exponent_field(bits) == 0 {
        fraction_field(bits)
    } else {
        0x10_0000_0000_0000 + fraction_field(bits)
    }
}

/// The power of two by which the significand is scaled.
pub open spec fn scale(bits: u64) -> int {
    if exponent_field(bits) == 0 {
        -1074
    } else {
        exponent_field(bits) - 1075
    }
}

/// Whether the number without its sign is exactly `n`.
pub open spec fn has_magnitude(bits: u64, n: int) -> bool {
    if scale(bits) >= 0 {
        n == significand(bits) * vstd::arithmetic::power2::pow2(scale(bits) as nat)
    } else {
        n * vstd::arithmetic::power2::pow2((-scale(bits)) as nat) == significand(bits)
    }
}

/// Whether the number with these bits is exactly the integer `n`.
pub open spec fn float_equals(bits: u64, n: int) -> bool {
    &&& is_finite(bits)
    &&& if is_signed(bits) {
        n <= 0 && has_magnitude(bits, -n)
    } else {
        n >= 0 && has_magnitude(bits, n)
    }
}

/// Whether the number is the integer `n` and lies within the range in which the format still
/// holds every integer.
pub open spec fn is_exact_integer(bits: u64, n: int) -> bool {
    float_equals(bits, n) && -0x20_0000_0000_0000 <= n <= 0x20_0000_0000_0000
}

/// The integer that the number is, within that range; nothing for any other number.
pub open spec fn exact_integer(bits: u64) -> Option<i64> {
    if exists|n: i64| is_exact_integer(bits, n as int) {
        Some(choose|n: i64| is_exact_integer(bits, n as int))
    } else {
        None
    }
}

/// A number is at most one integer.
pub proof fn float_is_one_integer(bits: u64, left: int, right: int)
    requires
        float_equals(bits, left),
        float_equals(bits, right),
    ensures
        left == right,
{
    if scale(bits) < 0 {
        let unit = vstd::arithmetic::power2::pow2((-scale(bits)) as nat) as int;
        vstd::arithmetic::power2::lemma_pow2_pos((-scale(bits)) as nat);
        let l = if left < 0 { -left } else { left };
        let r = if right < 0 { -right } else { right };
        assert(l == r) by (nonlinear_arith)
            requires
                l * unit == r * unit,
                unit > 0,
        ;
    }
}

/// Two to the power of `k`.
fn power_of_two(k: u64) -> (power: u64)
    requires
        k <= 53,
    ensures
        power == vstd::arithmetic::power2::pow2(k as nat),
        power <= 0x20_0000_0000_0000,
{
    let mut power: u64 = 1;
    let mut i: u64 = 0;
    proof {
        vstd::arithmetic::power2::lemma2_to64();
        vstd::arithmetic::power2::lemma2_to64_rest();
    }
    while i < k
        invariant
            i <= k <= 53,
            power == vstd::arithmetic::power2::pow2(i as nat),
            power <= 0x20_0000_0000_0000,
            vstd::arithmetic::power2::pow2(53) == 0x20_0000_0000_0000,
        decreases k - i,
    {
        proof {
            vstd::arithmetic::power2::lemma_pow2_unfold((i + 1) as nat);
            if i + 1 < 53 {
                vstd::arithmetic::power2::lemma_pow2_strictly_increases((i + 1) as nat, 53);
            }
        }
        power = power * 2;
        i = i + 1;
    }
    power
}

/// The magnitude, where it is an integer of at most two to the power of 53.
fn exact_magnitude(bits: u64) -> (found: Option<u64>)
    requires
        is_finite(bits),
    ensures
        match found {
            Some(n) => n <= 0x20_0000_0000_0000 && has_magnitude(bits, n as int),
            None => forall|n: int|
                0 <= n <= 0x20_0000_0000_0000 ==> !#[trigger] has_magnitude(bits, n),
        },
{
    let exponent = (bits / 0x10_0000_0000_0000) % 2048;
    let fraction = bits % 0x10_0000_0000_0000;
    let significant = if exponent == 0 {
        fraction
    } else {
        0x10_0000_0000_0000 + fraction
    };
    proof {
        vstd::arithmetic::power2::lemma2_to64();
        vstd::arithmetic::power2::lemma2_to64_rest();
    }
    if significant == 0 {
        assert(0int * vstd::arithmetic::power2::pow2(1074) == 0);
        return Some(0);
    }
    if exponent > 1076 {
        proof {
            let power = vstd::arithmetic::power2::pow2((exponent - 1075) as nat);
            vstd::arithmetic::power2::lemma_pow2_unfold((exponent - 1075) as nat);
            vstd::arithmetic::power2::lemma_pow2_unfold((exponent - 1076) as nat);
            vstd::arithmetic::power2::lemma_pow2_pos((exponent - 1077) as nat);
            assert(significant * power > 0x20_0000_0000_0000) by (nonlinear_arith)
                requires
                    significant >= 0x10_0000_0000_0000,
                    power >= 4,
            ;
        }
        return None;
    }
    if exponent >= 1075 {
        let power = power_of_two(exponent - 1075);
        assert(power == 1 || power == 2);
        if significant * power > 0x20_0000_0000_0000 {
            return None;
        }
        return Some(significant * power);
    }
    let down: u64 = if exponent == 0 {
        1074
    } else {
        1075 - exponent
    };
    assert(down == -scale(bits));
    if down > 53 {
        proof {
            vstd::arithmetic::power2::lemma_pow2_strictly_increases(53, down as nat);
            let power = vstd::arithmetic::power2::pow2(down as nat) as int;
            assert forall|n: int| 0 <= n <= 0x20_0000_0000_0000 implies !#[trigger] has_magnitude(
                bits,
                n,
            ) by {
                assert(n * power != significant) by (nonlinear_arith)
                    requires
                        power > 0x20_0000_0000_0000,
                        0 < significant < 0x20_0000_0000_0000,
                        n >= 0,
                ;
            }
        }
        return None;
    }
    let power = power_of_two(down);
    proof {
        vstd::arithmetic::power2::lemma_pow2_pos(down as nat);
    }
    if significant % power != 0 {
        proof {
            assert forall|n: int| 0 <= n <= 0x20_0000_0000_0000 implies !#[trigger] has_magnitude(
                bits,
                n,
            ) by {
                vstd::arithmetic::div_mod::lemma_mod_multiples_basic(n, power as int);
            }
        }
        return None;
    }
    let quotient = significant / power;
    proof {
        vstd::arithmetic::div_mod::lemma_fundamental_div_mod(significant as int, power as int);
        assert(quotient * power == power * quotient) by (nonlinear_arith);
        assert(quotient <= significant) by (nonlinear_arith)
            requires
                quotient * power == significant,
                power >= 1,
                quotient >= 0,
        ;
    }
    Some(quotient)
}

/// The integer that the number with these bits is, as long as its magnitude is at most two
/// to the power of 53. Fractional, non-finite and larger numbers give nothing.
pub fn integral_value(bits: u64) -> (found: Option<i64>)
    ensures
        found == exact_integer(bits),
        match found {
            Some(n) => is_exact_integer(bits, n as int),
            None => forall|n: int| !is_exact_integer(bits, n),
        },
{
    if (bits / 0x10_0000_0000_0000) % 2048 == 2047 {
        return None;
    }
    match exact_magnitude(bits) {
        Some(magnitude) => {
            let n: i64 = if bits >= 0x8000_0000_0000_0000 {
                -(magnitude as i64)
            } else {
                magnitude as i64
            };
            assert(is_exact_integer(bits, n as int));
            proof {
                let chosen = choose|m: i64| is_exact_integer(bits, m as int);
                float_is_one_integer(bits, n as int, chosen as int);
            }
            Some(n)
        },
        None => {
            assert forall|n: int| !is_exact_integer(bits, n) by {
                assert(!(0 <= n <= 0x20_0000_0000_0000 && has_magnitude(bits, n)));
                assert(!(0 <= -n <= 0x20_0000_0000_0000 && has_magnitude(bits, -n)));
            }
            None
        },
    }
}

/// A normal number is its significand over two to the power of 1075, times two to the power of
/// its exponent field, whichever of the two powers is the larger; a subnormal one is its
/// fraction over two to the power of 1074. The sign is the top bit.
pub proof fn floats_are_scaled_significands(
    bits: u64,
    sign: int,
    exponent: int,
    fraction: int,
    n: int,
)
    requires
        bits == sign * 0x8000_0000_0000_0000 + exponent * 0x10_0000_0000_0000 + fraction,
        0 <= sign <= 1,
        0 <= exponent < 2048,
        0 <= fraction < 0x10_0000_0000_0000,
        n >= 0,
    ensures
        exponent == 2047 ==> !float_equals(bits, n) && !float_equals(bits, -n),
        0 < exponent < 2047 ==> (float_equals(
            bits,
            if sign == 0 {
                n
            } else {
                -n
            },
        ) <==> n * vstd::arithmetic::power2::pow2(1075) == (0x10_0000_0000_0000 + fraction)
            * vstd::arithmetic::power2::pow2(exponent as nat)),
        exponent == 0 ==> (float_equals(
            bits,
            if sign == 0 {
                n
            } else {
                -n
            },
        ) <==> n * vstd::arithmetic::power2::pow2(1074) == fraction),
        n > 0 ==> !float_equals(
            bits,
            if sign == 0 {
                -n
            } else {
                n
            },
        ),
{
    let low = exponent * 0x10_0000_0000_0000 + fraction;
    assert(exponent * 0x10_0000_0000_0000 <= 2047 * 0x10_0000_0000_0000) by (nonlinear_arith)
        requires
            0 <= exponent < 2048,
    ;
    assert(is_signed(bits) <==> sign == 1);
    assert(bits as int / 0x10_0000_0000_0000 == sign * 2048 + exponent);
    assert((sign * 2048 + exponent) % 2048 == exponent);
    assert(exponent_field(bits) == exponent);
    assert(fraction_field(bits) == fraction);
    if 0 < exponent < 2047 {
        let m = 0x10_0000_0000_0000 + fraction;
        assert(significand(bits) == m);
        if exponent >= 1075 {
            let k = (exponent - 1075) as nat;
            vstd::arithmetic::power2::lemma_pow2_adds(k, 1075);
            vstd::arithmetic::power2::lemma_pow2_pos(1075);
            let low: int = vstd::arithmetic::power2::pow2(1075) as int;
            let high: int = vstd::arithmetic::power2::pow2(k) as int;
            assert(n == m * high <==> n * low == m * (high * low)) by (nonlinear_arith)
                requires
                    low > 0,
            ;
        } else {
            let k = (1075 - exponent) as nat;
            vstd::arithmetic::power2::lemma_pow2_adds(k, exponent as nat);
            vstd::arithmetic::power2::lemma_pow2_pos(exponent as nat);
            let low: int = vstd::arithmetic::power2::pow2(exponent as nat) as int;
            let high: int = vstd::arithmetic::power2::pow2(k) as int;
            assert(n * high == m <==> n * (high * low) == m * low) by (nonlinear_arith)
                requires
                    low > 0,
            ;
        }
    }
    if n > 0 && 0 < exponent < 2047 {
        assert(significand(bits) > 0);
    }
}

} // verus!
