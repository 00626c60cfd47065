//! Reading IEEE 754 bit patterns with integer arithmetic.
//!
//! A host that measures time in binary floating point hands over the bit
//! pattern of a reading; this module turns it into a whole number of ticks,
//! or into a probability, without ever holding a fraction.

use vstd::prelude::*;
use vstd::arithmetic::power2::{
    lemma2_to64, lemma2_to64_rest, lemma_pow2_adds, lemma_pow2_pos,
    lemma_pow2_strictly_increases, lemma_pow2_unfold, pow2,
};

verus! {

/// Two to the power 52: the number of fraction patterns of a double.
pub const DOUBLE_FRACTION_RANGE: u64 = 0x10_0000_0000_0000;

/// Two to the power 11: the number of exponent patterns of a double.
pub const DOUBLE_EXPONENT_RANGE: u64 = 0x800;

/// The exponent pattern that marks an infinity or a NaN in a double.
pub const DOUBLE_EXPONENT_SPECIAL: u64 = 0x7ff;

/// The exponent pattern of a double whose significand counts units of one.
pub const DOUBLE_EXPONENT_UNIT: u64 = 1075;

/// Two to the power 63: the weight of the sign bit of a double.
pub const DOUBLE_SIGN_WEIGHT: u64 = 0x8000_0000_0000_0000;

/// The fraction field of a double's pattern.
pub open spec fn double_fraction(bits: u64) -> int {
    bits as int % DOUBLE_FRACTION_RANGE as int
}

/// The exponent field of a double's pattern.
pub open spec fn double_exponent(bits: u64) -> int {
    (bits as int / DOUBLE_FRACTION_RANGE as int) % DOUBLE_EXPONENT_RANGE as int
}

/// Whether the sign bit of a double's pattern is set.
pub open spec fn double_negative(bits: u64) -> bool {
    bits >= DOUBLE_SIGN_WEIGHT
}

/// The significand of a finite double: its magnitude is the significand times
/// two to the power `double_scale`.
pub open spec fn double_significand(bits: u64) -> int {
    if double_exponent(bits) == 0 {
        double_fraction(bits)
    } else {
        double_fraction(bits) + DOUBLE_FRACTION_RANGE
    }
}

/// The power of two that a finite double's significand is multiplied by.
pub open spec fn double_scale(bits: u64) -> int {
    if double_exponent(bits) == 0 {
        1 - DOUBLE_EXPONENT_UNIT
    } else {
        double_exponent(bits) - DOUBLE_EXPONENT_UNIT
    }
}

/// Whether a double's pattern stands for a time that can be used: a finite
/// number that is not below zero. Minus zero is zero.
pub open spec fn double_usable(bits: u64) -> bool {
    &&& double_exponent(bits) != DOUBLE_EXPONENT_SPECIAL
    &&& (!double_negative(bits) || double_significand(bits) == 0)
}

/// `count` times two to the power `scale`, rounded to the nearest whole
/// number, a half upwards.
pub open spec fn scaled_nearest(count: int, scale: int) -> int {
    if scale >= 0 {
        count * pow2(scale as nat)
    } else {
        (count + pow2((-scale - 1) as nat)) / (pow2((-scale) as nat) as int)
    }
}

/// The number of ticks that a double's pattern stands for, at
/// `ticks_per_unit` ticks to one: the nearest whole number of ticks, held at
/// the largest tick count. A pattern that cannot be used has none.
pub open spec fn double_ticks(bits: u64, ticks_per_unit: u64) -> Option<u64> {
    if double_usable(bits) {
        let exact = scaled_nearest(
            double_significand(bits) * ticks_per_unit,
            double_scale(bits),
        );
        if exact > u64::MAX {
            Some(u64::MAX)
        } else {
            Some(exact as u64)
        }
    } else {
        None
    }
}

/// Largest exponent whose power of two `power_of_two` computes.
const MAX_POWER: u32 = 126;

/// Two to the power 126 is the square of two to the power 63.
proof fn lemma_largest_power()
    ensures
        pow2(126) == 0x4000_0000_0000_0000_0000_0000_0000_0000,
{
    lemma2_to64_rest();
    lemma_pow2_adds(63, 63);
    assert(0x8000_0000_0000_0000 * 0x8000_0000_0000_0000
        == 0x4000_0000_0000_0000_0000_0000_0000_0000) by (nonlinear_arith);
}

/// Powers of two grow with the exponent.
proof fn lemma_power_grows(low: nat, high: nat)
    requires
        low <= high,
    ensures
        pow2(low) <= pow2(high),
        pow2(low) > 0,
{
    lemma_pow2_pos(low);
    if low < high {
        lemma_pow2_strictly_increases(low, high);
    }
}

/// Computes two to the power `exponent`.
fn power_of_two(exponent: u32) -> (power: u128)
    requires
        exponent <= MAX_POWER,
    ensures
        power == pow2(exponent as nat),
{
    let mut power: u128 = 1;
    let mut at: u32 = 0;
    proof {
        lemma2_to64();
    }
    while at < exponent
        invariant
            at <= exponent <= MAX_POWER,
            power == pow2(at as nat),
        decreases exponent - at,
    {
        proof {
            lemma_pow2_unfold((at + 1) as nat);
            lemma_power_grows((at + 1) as nat, 126);
            lemma_largest_power();
        }
        power = power * 2;
        at = at + 1;
    }
    power
}

/// Rounding to the nearest whole number gives zero once the power of two
/// divided by is more than twice the count.
proof fn lemma_rounds_to_zero(count: int, down: nat)
    requires
        0 <= count,
        down >= 1,
        count < pow2((down - 1) as nat),
    ensures
        scaled_nearest(count, -(down as int)) == 0,
{
    lemma_pow2_unfold(down);
    let half = pow2((down - 1) as nat) as int;
    let whole = pow2(down) as int;
    assert((count + half) / whole == 0) by (nonlinear_arith)
        requires
            0 <= count < half,
            whole == 2 * half,
    ;
}

/// A product with a double's significand stays below two to the power 117.
proof fn lemma_product_bound(significand: int, ticks_per_unit: int)
    requires
        0 <= significand < 0x20_0000_0000_0000,
        0 <= ticks_per_unit <= u64::MAX,
    ensures
        0 <= significand * ticks_per_unit < pow2(117),
        pow2(117) == 0x20_0000_0000_0000_0000_0000_0000_0000,
{
    lemma2_to64_rest();
    lemma_pow2_adds(53, 64);
    assert(0x20_0000_0000_0000 * 0x1_0000_0000_0000_0000
        == 0x20_0000_0000_0000_0000_0000_0000_0000) by (nonlinear_arith);
    assert(0 <= significand * ticks_per_unit < 0x20_0000_0000_0000 * 0x1_0000_0000_0000_0000)
        by (nonlinear_arith)
        requires
            0 <= significand < 0x20_0000_0000_0000,
            0 <= ticks_per_unit < 0x1_0000_0000_0000_0000,
    ;
}

/// Turns the bit pattern of a double into ticks, at `ticks_per_unit` ticks
/// to one: the nearest whole number of ticks, held at the largest tick count.
/// A reading below zero, an infinity and a NaN are refused.
pub fn ticks_from_bits(bits: u64, ticks_per_unit: u64) -> (ticks: Option<u64>)
    ensures
        ticks == double_ticks(bits, ticks_per_unit),
{
    let fraction: u64 = bits % DOUBLE_FRACTION_RANGE;
    let exponent: u64 = (bits / DOUBLE_FRACTION_RANGE) % DOUBLE_EXPONENT_RANGE;
    let negative: bool = bits >= DOUBLE_SIGN_WEIGHT;
    if exponent == DOUBLE_EXPONENT_SPECIAL {
        return None;
    }
    let significand: u64 = if exponent == 0 {
        fraction
    } else {
        fraction + DOUBLE_FRACTION_RANGE
    };
    if negative && significand != 0 {
        return None;
    }
    proof {
        lemma_product_bound(significand as int, ticks_per_unit as int);
    }
    let product: u128 = (significand as u128) * (ticks_per_unit as u128);
    let ghost scale: int = double_scale(bits);
    if exponent >= DOUBLE_EXPONENT_UNIT {
        let up: u64 = exponent - DOUBLE_EXPONENT_UNIT;
        if product == 0 {
            proof {
                assert(0 * pow2(scale as nat) == 0) by (nonlinear_arith);
            }
            Some(0)
        } else if up >= 64 || product > u64::MAX as u128 {
            proof {
                lemma_power_grows(0, scale as nat);
                lemma2_to64();
                if up >= 64 {
                    lemma_power_grows(64, scale as nat);
                    lemma2_to64_rest();
                }
                let factor = pow2(scale as nat) as int;
                assert(product * factor > u64::MAX) by (nonlinear_arith)
                    requires
                        product >= 1,
                        factor >= 1,
                        product > u64::MAX || factor > u64::MAX,
                ;
            }
            Some(u64::MAX)
        } else {
            let factor: u128 = power_of_two(up as u32);
            proof {
                lemma_power_grows(up as nat, 63);
                lemma2_to64_rest();
                assert(product * factor <= 0xffff_ffff_ffff_ffff * 0x8000_0000_0000_0000)
                    by (nonlinear_arith)
                    requires
                        0 <= product <= 0xffff_ffff_ffff_ffff,
                        0 <= factor <= 0x8000_0000_0000_0000,
                ;
            }
            let exact: u128 = product * factor;
            if exact > u64::MAX as u128 {
                Some(u64::MAX)
            } else {
                Some(exact as u64)
            }
        }
    } else {
        let down: u64 = if exponent == 0 {
            DOUBLE_EXPONENT_UNIT - 1
        } else {
            DOUBLE_EXPONENT_UNIT - exponent
        };
        if down > 118 {
            proof {
                lemma_power_grows(117, (down - 1) as nat);
                lemma_rounds_to_zero(product as int, down as nat);
            }
            Some(0)
        } else {
            let half: u128 = power_of_two((down - 1) as u32);
            proof {
                lemma_pow2_unfold(down as nat);
                lemma_power_grows((down - 1) as nat, 117);
            }
            let whole: u128 = half * 2;
            let exact: u128 = (product + half) / whole;
            if exact > u64::MAX as u128 {
                Some(u64::MAX)
            } else {
                Some(exact as u64)
            }
        }
    }
}

/// Two to the power 23: the number of fraction patterns of a single.
pub const SINGLE_FRACTION_RANGE: u32 = 0x80_0000;

/// Two to the power 8: the number of exponent patterns of a single.
pub const SINGLE_EXPONENT_RANGE: u32 = 0x100;

/// The exponent pattern that marks an infinity or a NaN in a single.
pub const SINGLE_EXPONENT_SPECIAL: u32 = 0xff;

/// The exponent pattern of the singles from one up to two.
pub const SINGLE_EXPONENT_ONE: u32 = 127;

/// Two to the power 31: the weight of the sign bit of a single.
pub const SINGLE_SIGN_WEIGHT: u32 = 0x8000_0000;

/// The fraction field of a single's pattern.
pub open spec fn single_fraction(bits: u32) -> int {
    bits as int % SINGLE_FRACTION_RANGE as int
}

/// The exponent field of a single's pattern.
pub open spec fn single_exponent(bits: u32) -> int {
    (bits as int / SINGLE_FRACTION_RANGE as int) % SINGLE_EXPONENT_RANGE as int
}

/// Whether the sign bit of a single's pattern is set.
pub open spec fn single_negative(bits: u32) -> bool {
    bits >= SINGLE_SIGN_WEIGHT
}

/// The significand of a finite single.
pub open spec fn single_significand(bits: u32) -> int {
    if single_exponent(bits) == 0 {
        single_fraction(bits)
    } else {
        single_fraction(bits) + SINGLE_FRACTION_RANGE
    }
}

/// Whether a single's pattern stands for a probability: a number from zero
/// to one, both included. Minus zero is zero.
pub open spec fn single_is_probability(bits: u32) -> bool {
    &&& single_exponent(bits) != SINGLE_EXPONENT_SPECIAL
    &&& (!single_negative(bits) || single_significand(bits) == 0)
    &&& (single_exponent(bits) < SINGLE_EXPONENT_ONE || (single_exponent(bits)
        == SINGLE_EXPONENT_ONE && single_fraction(bits) == 0))
}

/// The power of two by which the significand of a probability is divided to
/// give its count of draws.
pub open spec fn single_down(bits: u32) -> nat {
    if single_exponent(bits) == 0 {
        (SINGLE_EXPONENT_ONE - 1) as nat
    } else {
        (SINGLE_EXPONENT_ONE - single_exponent(bits)) as nat
    }
}

/// `count` divided by two to the power `down`, rounded upwards.
pub open spec fn divided_up(count: int, down: nat) -> int {
    (count + pow2(down) - 1) / (pow2(down) as int)
}

/// The probability that a single's pattern stands for, as the number of the
/// `SINGLE_FRACTION_RANGE` equally likely draws that lie below it: the
/// probability times that range, rounded upwards. A draw divided by the range
/// is below the probability exactly if the draw is below this count.
pub open spec fn single_chance(bits: u32) -> Option<u32> {
    if single_is_probability(bits) {
        Some(divided_up(single_significand(bits), single_down(bits)) as u32)
    } else {
        None
    }
}

/// Dividing upwards by a power of two above the count gives one, or zero
/// for a count of zero.
proof fn lemma_divided_up_small(count: int, down: nat)
    requires
        0 <= count <= pow2(down),
    ensures
        divided_up(count, down) == if count == 0 {
            0int
        } else {
            1int
        },
{
    lemma_pow2_pos(down);
    let whole = pow2(down) as int;
    if count == 0 {
        assert((count + whole - 1) / whole == 0) by (nonlinear_arith)
            requires
                count == 0,
                whole > 0,
        ;
    } else {
        assert((count + whole - 1) / whole == 1) by (nonlinear_arith)
            requires
                1 <= count <= whole,
        ;
    }
}

/// Dividing a significand upwards by a power of two stays within the range
/// of draws, unless the power is one.
proof fn lemma_divided_up_bound(count: int, whole: int)
    requires
        0 <= count < 2 * SINGLE_FRACTION_RANGE,
        whole >= 2 || (whole == 1 && count <= SINGLE_FRACTION_RANGE),
    ensures
        0 <= (count + whole - 1) / whole <= SINGLE_FRACTION_RANGE,
{
    assert(0 <= (count + whole - 1) / whole <= 0x80_0000) by (nonlinear_arith)
        requires
            0 <= count < 0x100_0000,
            whole >= 2 || (whole == 1 && count <= 0x80_0000),
    ;
}

/// Turns the bit pattern of a single into a probability, counted in draws.
/// A number below zero or above one, an infinity and a NaN are refused.
pub fn chance_from_bits(bits: u32) -> (chance: Option<u32>)
    ensures
        chance == single_chance(bits),
        chance is Some ==> chance->Some_0 <= SINGLE_FRACTION_RANGE,
{
    let fraction: u32 = bits % SINGLE_FRACTION_RANGE;
    let exponent: u32 = (bits / SINGLE_FRACTION_RANGE) % SINGLE_EXPONENT_RANGE;
    let negative: bool = bits >= SINGLE_SIGN_WEIGHT;
    if exponent == SINGLE_EXPONENT_SPECIAL {
        return None;
    }
    let significand: u32 = if exponent == 0 {
        fraction
    } else {
        fraction + SINGLE_FRACTION_RANGE
    };
    if negative && significand != 0 {
        return None;
    }
    if exponent > SINGLE_EXPONENT_ONE || (exponent == SINGLE_EXPONENT_ONE && fraction != 0) {
        return None;
    }
    let down: u32 = if exponent == 0 {
        SINGLE_EXPONENT_ONE - 1
    } else {
        SINGLE_EXPONENT_ONE - exponent
    };
    if down >= 24 {
        proof {
            lemma_power_grows(24, down as nat);
            lemma2_to64();
            lemma_divided_up_small(significand as int, down as nat);
        }
        if significand == 0 {
            Some(0)
        } else {
            Some(1)
        }
    } else {
        let whole: u128 = power_of_two(down);
        proof {
            lemma_power_grows(down as nat, 23);
            lemma_power_grows(0, down as nat);
            lemma2_to64();
            if down >= 1 {
                lemma_power_grows(1, down as nat);
            }
            lemma_divided_up_bound(significand as int, whole as int);
        }
        let count: u128 = (significand as u128 + whole - 1) / whole;
        Some(count as u32)
    }
}

} // verus!
