//! From a channel of radiance to the byte of a pixel.
//!
//! The caller scales the channel to the range of a byte, which rounds; the
//! kernel caps the scaled channel and cuts off its fraction, which does not.

use vstd::prelude::*;
use vstd::arithmetic::div_mod::{lemma_basic_div, lemma_div_multiples_vanish_quotient};
use vstd::arithmetic::power2::{lemma2_to64_rest, lemma_pow2_adds, lemma_pow2_pos, lemma_pow2_strictly_increases, pow2};
use crate::scalar::{Scalar, FRACTION_SPAN, SIGN_BIT};

verus! {

/// The pattern of 255, the greatest byte.
pub const BYTE_TOP: u64 = 0x406f_e000_0000_0000;

/// The exponent field of the numbers from one up to, and without, two.
pub const EXPONENT_OF_ONE: u64 = 1023;

/// The whole part of a number that is not negative: its value, which counts
/// units of two to the minus 1074, in whole multiples of two to the 1074.
pub open spec fn whole_part(x: Scalar) -> int {
    (x.size() as int) / (pow2(1074) as int)
}

/// The byte of a channel that has been scaled to the range of a byte: the
/// channel capped at 255, where what is no number counts as beyond the cap,
/// and then cut down to its whole part, where what is negative counts as
/// zero.
pub open spec fn byte_of(scaled: Scalar) -> int {
    let capped = scaled.min_of(Scalar { bits: BYTE_TOP });
    if capped.sign() {
        0
    } else {
        whole_part(capped)
    }
}

/// A number under one has no whole part.
proof fn lemma_whole_part_under_one(x: Scalar)
    requires
        x.exponent() < EXPONENT_OF_ONE,
    ensures
        whole_part(x) == 0,
{
    let e = x.exponent();
    lemma2_to64_rest();
    lemma_pow2_pos(1074);
    if e == 0 {
        lemma_pow2_strictly_increases(52, 1074);
    } else {
        let p = pow2((e - 1) as nat) as int;
        let m = (FRACTION_SPAN + x.fraction()) as int;
        lemma_pow2_pos((e - 1) as nat);
        lemma_pow2_adds(53, (e - 1) as nat);
        if 52 + e < 1074 {
            lemma_pow2_strictly_increases((52 + e) as nat, 1074);
        }
        assert(m * p < pow2(53) * p) by (nonlinear_arith)
            requires
                m < pow2(53),
                p > 0,
        ;
    }
    lemma_basic_div(x.size() as int, pow2(1074) as int);
}

/// The whole part of a number from one upwards is its significand without
/// the fraction bits that its exponent leaves behind the point.
proof fn lemma_whole_part_from_one(x: Scalar, behind: nat)
    requires
        x.exponent() >= EXPONENT_OF_ONE,
        x.exponent() + behind == 1075,
    ensures
        whole_part(x) == ((FRACTION_SPAN + x.fraction()) as int) / (pow2(behind) as int),
{
    let e = x.exponent();
    let p = pow2((e - 1) as nat) as int;
    let m = (FRACTION_SPAN + x.fraction()) as int;
    let d = pow2(behind) as int;
    lemma_pow2_pos((e - 1) as nat);
    lemma_pow2_pos(behind);
    lemma_pow2_adds((e - 1) as nat, behind);
    lemma_div_multiples_vanish_quotient(p, m, d);
    assert(x.size() as int == p * m) by (nonlinear_arith)
        requires
            x.size() as int == m * p,
    ;
}

/// The byte of a channel that has been scaled to the range of a byte.
/// Between zero and 255 it is the whole part of the scaled channel; below
/// it is 0, and above, or where the channel is no number, 255.
pub fn quantize(scaled: Scalar) -> (byte: u8)
    ensures
        byte == byte_of(scaled),
        scaled.nan() || (Scalar { bits: BYTE_TOP }).le(scaled) ==> byte == 255,
        scaled.lt(Scalar::one_value()) ==> byte == 0,
{
    let capped = scaled.min(Scalar::from_bits(BYTE_TOP));
    if capped.bits >= SIGN_BIT {
        return 0;
    }
    let exponent: u64 = capped.bits / FRACTION_SPAN;
    let significand: u64 = FRACTION_SPAN + capped.bits % FRACTION_SPAN;
    if exponent < EXPONENT_OF_ONE {
        proof {
            lemma_whole_part_under_one(capped);
        }
        return 0;
    }
    let behind: u64 = 1075 - exponent;
    let unit: u64 = if behind == 52 {
        0x10_0000_0000_0000
    } else if behind == 51 {
        0x8_0000_0000_0000
    } else if behind == 50 {
        0x4_0000_0000_0000
    } else if behind == 49 {
        0x2_0000_0000_0000
    } else if behind == 48 {
        0x1_0000_0000_0000
    } else if behind == 47 {
        0x8000_0000_0000
    } else if behind == 46 {
        0x4000_0000_0000
    } else {
        0x2000_0000_0000
    };
    proof {
        lemma2_to64_rest();
        lemma_whole_part_from_one(capped, behind as nat);
    }
    (significand / unit) as u8
}

} // verus!
