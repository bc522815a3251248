//! Numbers as the scripting host holds them.
//!
//! The host knows one kind of number, the IEEE 754 double. The library never
//! computes with such a number; it reads one by its 64 bits: a sign bit, eleven
//! bits of biased exponent and fifty-two bits of fraction.

use vstd::prelude::*;
use vstd::arithmetic::power2::*;
use vstd::arithmetic::div_mod::*;
use vstd::bits::*;

verus! {

/// The sign bit of a double is set.
pub open spec fn is_negative(bits: u64) -> bool {
    bits >= 0x8000_0000_0000_0000
}

/// The biased exponent of a double, from 0 to 2047.
pub open spec fn exponent(bits: u64) -> int {
    (bits as int / 0x10_0000_0000_0000) % 0x800
}

/// The fraction field of a double, below two to the power 52.
pub open spec fn fraction(bits: u64) -> int {
    bits as int % 0x10_0000_0000_0000
}

/// The bits encode no number at all.
pub open spec fn is_nan(bits: u64) -> bool {
    exponent(bits) == 0x7ff && fraction(bits) != 0
}

/// The handle that a host number stands for: the number cut off towards zero
/// and held within the range of a handle. What is no number, what is negative
/// and what is below one gives 0; what is 2^32 or more, infinity included, gives
/// the largest handle.
pub open spec fn handle_of_number(bits: u64) -> u32 {
    if is_nan(bits) || is_negative(bits) || exponent(bits) < 1023 {
        0
    } else if exponent(bits) >= 1055 {
        u32::MAX
    } else {
        ((0x10_0000_0000_0000 + fraction(bits)) / (pow2((1075 - exponent(bits)) as nat) as int))
            as u32
    }
}

/// Where a number is cut off, what is left of it is a handle, so that the
/// cast in `handle_of_number` loses nothing; and it is the whole part of the
/// number: the largest handle that, in units of the number's last bit, does
/// not exceed it.
pub proof fn lemma_cut_off(bits: u64)
    requires
        1023 <= exponent(bits) < 1055,
    ensures
        ({
            let unit = pow2((1075 - exponent(bits)) as nat) as int;
            let significand = 0x10_0000_0000_0000 + fraction(bits);
            let whole = significand / unit;
            &&& 0 < whole <= u32::MAX
            &&& whole * unit <= significand < (whole + 1) * unit
        }),
{
    let shift = (1075 - exponent(bits)) as nat;
    let significand = 0x10_0000_0000_0000 + fraction(bits);
    lemma2_to64();
    lemma2_to64_rest();
    lemma_pow2_pos(shift);
    if shift < 52 {
        lemma_pow2_strictly_increases(shift, 52);
    }
    if 21 < shift {
        lemma_pow2_strictly_increases(21, shift);
    }
    let unit = pow2(shift) as int;
    let whole = significand / unit;
    assert(0x20_0000 <= unit <= 0x10_0000_0000_0000);
    lemma_div_is_ordered(unit, significand, unit);
    lemma_div_basics(unit);
    lemma_div_is_ordered_by_denominator(significand, 0x20_0000, unit);
    assert(significand / 0x20_0000 <= 0xffff_ffff) by {
        lemma_div_is_ordered(significand, 0x1f_ffff_ffff_ffff, 0x20_0000);
        assert(0x1f_ffff_ffff_ffffint / 0x20_0000 == 0xffff_ffff);
    }
    lemma_fundamental_div_mod(significand, unit);
    lemma_mod_bound(significand, unit);
    assert(whole * unit == unit * whole && (whole + 1) * unit == unit * whole + unit)
        by (nonlinear_arith);
}

/// Reads a host number as a handle.
pub fn handle_from_number(bits: u64) -> (handle: u32)
    ensures
        handle == handle_of_number(bits),
{
    let exponent: u64 = (bits >> 52) & 0x7ff;
    let fraction: u64 = bits & 0xf_ffff_ffff_ffff;
    let negative: bool = (bits >> 63) != 0;
    proof {
        assert(((bits >> 52) & 0x7ff) == (bits / 0x10_0000_0000_0000) % 0x800) by (bit_vector);
        assert((bits & 0xf_ffff_ffff_ffff) == bits % 0x10_0000_0000_0000) by (bit_vector);
        assert(((bits >> 63) != 0) == (bits >= 0x8000_0000_0000_0000)) by (bit_vector);
    }
    if (exponent == 0x7ff && fraction != 0) || negative || exponent < 1023 {
        0
    } else if exponent >= 1055 {
        u32::MAX
    } else {
        let significand: u64 = fraction | 0x10_0000_0000_0000;
        let shift: u64 = 1075 - exponent;
        proof {
            assert((fraction | 0x10_0000_0000_0000) == fraction + 0x10_0000_0000_0000) by
                (bit_vector)
                requires
                    fraction < 0x10_0000_0000_0000,
            ;
            lemma_u64_shr_is_div(significand, shift);
            lemma_cut_off(bits);
        }
        (significand >> shift) as u32
    }
}

/// The position of the highest bit set in a handle, counted from 0; 0 for the
/// handle 0.
pub open spec fn top_bit(handle: u32) -> nat
    decreases handle,
{
    if handle <= 1 {
        0
    } else {
        1 + top_bit(handle / 2)
    }
}

/// The bits of the double that is equal to a handle. Every handle is such a
/// double exactly: its highest bit becomes the implicit leading bit, and the
/// bits below it open the fraction.
pub open spec fn number_of_handle(handle: u32) -> u64 {
    if handle == 0 {
        0
    } else {
        let e = top_bit(handle);
        ((1023 + e) * 0x10_0000_0000_0000 + (handle - pow2(e)) * pow2((52 - e) as nat)) as u64
    }
}

/// A handle other than 0 lies between the power of two of its highest bit and
/// the next one, and that bit is one of the 32.
pub proof fn lemma_top_bit(handle: u32)
    requires
        handle >= 1,
    ensures
        top_bit(handle) <= 31,
        pow2(top_bit(handle)) <= handle < 2 * pow2(top_bit(handle)),
    decreases handle,
{
    lemma2_to64();
    if handle > 1 {
        let half: u32 = handle / 2;
        lemma_top_bit(half);
        let e = top_bit(half);
        lemma_pow2_unfold(e + 1);
        if e == 31 {
            assert(pow2(31) == 0x8000_0000);
        }
    }
}

/// What the fields of `number_of_handle` are: a sign that is clear, the
/// exponent of the highest bit, and in the fraction the bits below it.
proof fn lemma_number_fields(handle: u32)
    requires
        handle >= 1,
    ensures
        !is_negative(number_of_handle(handle)),
        exponent(number_of_handle(handle)) == 1023 + top_bit(handle),
        fraction(number_of_handle(handle)) == (handle - pow2(top_bit(handle))) * pow2(
            (52 - top_bit(handle)) as nat,
        ),
        0x10_0000_0000_0000 + fraction(number_of_handle(handle)) == handle * pow2(
            (52 - top_bit(handle)) as nat,
        ),
{
    let e = top_bit(handle);
    let up = pow2((52 - e) as nat) as int;
    let low = pow2(e) as int;
    let rest = handle - low;
    lemma_top_bit(handle);
    lemma2_to64();
    lemma2_to64_rest();
    lemma_pow2_adds(e, (52 - e) as nat);
    lemma_pow2_pos((52 - e) as nat);
    assert(low * up == 0x10_0000_0000_0000);
    assert(rest * up + low * up == handle * up) by (nonlinear_arith)
        requires
            rest + low == handle,
    ;
    assert(0 <= rest * up < low * up) by (nonlinear_arith)
        requires
            0 <= rest < low,
            up > 0,
    ;
    let frac = rest * up;
    let bits = (1023 + e) * 0x10_0000_0000_0000 + frac;
    assert(bits < 0x8000_0000_0000_0000);
    assert(number_of_handle(handle) == bits);
    lemma_fundamental_div_mod_converse(bits, 0x10_0000_0000_0000, (1023 + e) as int, frac);
}

/// A handle written as a host number and read back is the same handle.
pub proof fn lemma_number_round_trip(handle: u32)
    ensures
        handle_of_number(number_of_handle(handle)) == handle,
{
    if handle == 0 {
        assert(exponent(0) == 0);
    } else {
        let e = top_bit(handle);
        let up = pow2((52 - e) as nat) as int;
        lemma_top_bit(handle);
        lemma_number_fields(handle);
        lemma_pow2_pos((52 - e) as nat);
        lemma_div_multiples_vanish(handle as int, up);
        assert(handle * up == up * handle) by (nonlinear_arith);
    }
}

/// Writes a handle as a host number.
pub fn number_from_handle(handle: u32) -> (bits: u64)
    ensures
        bits == number_of_handle(handle),
{
    if handle == 0 {
        return 0;
    }
    let mut e: u64 = 0;
    let mut rest: u32 = handle;
    proof {
        lemma_top_bit(handle);
    }
    while rest > 1
        invariant
            rest >= 1,
            top_bit(handle) == e + top_bit(rest),
            top_bit(handle) <= 31,
        decreases rest,
    {
        rest = rest / 2;
        e = e + 1;
    }
    let low: u64 = 1u64 << e;
    let up: u64 = 1u64 << (52 - e);
    proof {
        lemma2_to64();
        lemma2_to64_rest();
        lemma_pow2_strictly_increases(e as nat, 32);
        lemma_pow2_strictly_increases((52 - e) as nat, 53);
        lemma_u64_shl_is_mul(1, e);
        lemma_u64_shl_is_mul(1, (52 - e) as u64);
        lemma_number_fields(handle);
    }
    (1023 + e) * 0x10_0000_0000_0000 + (handle as u64 - low) * up
}

} // verus!
