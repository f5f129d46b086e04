//! From samples between -1 and 1 to the 16-bit samples that the WebRTC
//! detector takes.
//!
//! A sample is multiplied by 32767 in single precision, which rounds the
//! product to 24 significant bits, and what stands behind the point is then
//! dropped. Out of range the result is the nearest 16-bit number, and what is
//! not a number gives 0.
use vstd::arithmetic::div_mod::{
    lemma_basic_div, lemma_div_is_ordered, lemma_div_is_ordered_by_denominator,
    lemma_fundamental_div_mod,
};
use vstd::arithmetic::power2::{lemma2_to64, lemma_pow2_pos, lemma_pow2_strictly_increases, pow2};
use vstd::bits::lemma_u64_shr_is_div;
use vstd::prelude::*;

use crate::binary32::{
    exponent_field, fraction_field, is_nan, is_negative, Binary32, EXPONENT_UNIT, INFINITY, ONE,
    SIGN_BIT,
};

verus! {

/// What a sample is multiplied by.
pub const PCM_SCALE: u64 = 32767;

/// `n / unit`, rounded to the nearest whole number, and to the even one of
/// two that are equally near.
pub open spec fn round_half_even(n: int, unit: int) -> int {
    let quotient = n / unit;
    let rest = n % unit;
    if 2 * rest > unit || (2 * rest == unit && quotient % 2 == 1) {
        quotient + 1
    } else {
        quotient
    }
}

/// For a sample with an exponent field between 1 and 254: the whole part of
/// the absolute value of the sample times 32767, the product rounded to 24
/// significant bits.
///
/// The significand times 32767 has 38 or 39 bits, so its last 14 or 15 are
/// rounded away; what is left counts in units of `2^place * 2^(e - 150)`.
pub open spec fn scaled_whole(x: Binary32) -> int {
    let product = (EXPONENT_UNIT + fraction_field(x)) * PCM_SCALE;
    let place: int = if product < 0x40_0000_0000 {
        14
    } else {
        15
    };
    let rounded = round_half_even(product, pow2(place as nat) as int);
    let exponent = place + exponent_field(x) - 150;
    if exponent >= 0 {
        rounded * pow2(exponent as nat)
    } else {
        rounded / (pow2((-exponent) as nat) as int)
    }
}

/// The 16-bit sample for a sample in single precision.
///
/// With an exponent field of 0 the sample is below `2^-126` in absolute
/// value, and nothing of its product stands before the point. With an exponent
/// field of 255 it is infinite, and held at a limit as any sample whose
/// product is out of range.
pub open spec fn pcm16_of(x: Binary32) -> int {
    if is_nan(x) || exponent_field(x) == 0 {
        0
    } else {
        let whole = if exponent_field(x) == 255 {
            i16::MAX + 1
        } else {
            scaled_whole(x)
        };
        if is_negative(x) {
            if whole > i16::MAX {
                i16::MIN as int
            } else {
                -whole
            }
        } else {
            if whole > i16::MAX {
                i16::MAX as int
            } else {
                whole
            }
        }
    }
}

/// Converts one sample.
pub fn to_pcm16(sample: Binary32) -> (pcm: i16)
    ensures
        pcm == pcm16_of(sample),
{
    let negative = sample >= SIGN_BIT;
    let magnitude: u32 = if negative {
        sample - SIGN_BIT
    } else {
        sample
    };
    if magnitude > INFINITY {
        return 0;
    }
    let e: u32 = magnitude / EXPONENT_UNIT;
    let fraction: u32 = magnitude % EXPONENT_UNIT;
    if e == 0 {
        return 0;
    }
    let limit: i16 = if negative {
        i16::MIN
    } else {
        i16::MAX
    };
    if e == 255 {
        return limit;
    }
    let product: u64 = (EXPONENT_UNIT as u64 + fraction as u64) * PCM_SCALE;
    let place: u32 = if product < 0x40_0000_0000 {
        14
    } else {
        15
    };
    let unit: u64 = if place == 14 {
        0x4000
    } else {
        0x8000
    };
    let quotient: u64 = product / unit;
    let rest: u64 = product % unit;
    let rounded: u64 = if 2 * rest > unit || (2 * rest == unit && quotient % 2 == 1) {
        quotient + 1
    } else {
        quotient
    };
    proof {
        lemma2_to64();
    }
    if place + e >= 150 {
        // The rounded product has 24 bits and is not divided: it is out of range.
        proof {
            let exponent = (place + e - 150) as nat;
            lemma_pow2_pos(exponent);
            assert(rounded * pow2(exponent) >= rounded) by (nonlinear_arith)
                requires
                    pow2(exponent) >= 1,
            ;
        }
        return limit;
    }
    let down: u64 = (150 - (place + e)) as u64;
    let whole: u64 = if down >= 25 {
        // The rounded product is at most 2^24: nothing of it is left.
        proof {
            if down > 25 {
                lemma_pow2_strictly_increases(25, down as nat);
            }
            lemma_basic_div(rounded as int, pow2(down as nat) as int);
        }
        0
    } else {
        proof {
            lemma_u64_shr_is_div(rounded, down);
        }
        rounded >> down
    };
    if whole > 32767 {
        limit
    } else if negative {
        0 - (whole as i16)
    } else {
        whole as i16
    }
}

/// The 16-bit samples for a frame in single precision: as many, in the same
/// order, each the 16-bit sample of its own.
pub open spec fn pcm16_frame_of(frame: Seq<Binary32>) -> Seq<i16> {
    Seq::new(frame.len(), |i: int| pcm16_of(frame[i]) as i16)
}

/// Converts a frame, sample by sample.
pub fn to_pcm16_frame(frame: &[Binary32]) -> (pcm: Vec<i16>)
    ensures
        pcm@ == pcm16_frame_of(frame@),
{
    let n: usize = frame.len();
    let mut pcm: Vec<i16> = Vec::with_capacity(n);
    let mut i: usize = 0;
    while i < n
        invariant
            n == frame@.len(),
            i <= n,
            pcm@.len() == i,
            forall|j: int| 0 <= j < i ==> pcm@[j] == pcm16_of(#[trigger] frame@[j]),
        decreases n - i,
    {
        pcm.push(to_pcm16(frame[i]));
        i = i + 1;
    }
    assert(pcm@ =~= pcm16_frame_of(frame@));
    pcm
}

/// The rounded quotient is a whole number nearest to `n / unit`, and the even
/// one where two are equally near.
pub proof fn lemma_round_half_even_is_nearest(n: int, unit: int)
    requires
        n >= 0,
        unit > 0,
    ensures
        ({
            let rounded = round_half_even(n, unit);
            &&& 2 * (rounded * unit - n) <= unit
            &&& 2 * (n - rounded * unit) <= unit
            &&& (2 * (rounded * unit - n) == unit || 2 * (n - rounded * unit) == unit)
                ==> rounded % 2 == 0
        }),
{
    let quotient = n / unit;
    let rest = n % unit;
    lemma_fundamental_div_mod(n, unit);
    assert((quotient + 1) * unit == quotient * unit + unit) by (nonlinear_arith);
}

/// A sample between -1 and 1 is never held at a limit: its 16-bit sample lies
/// between -32767 and 32767, and the sample of the opposite sign gives the
/// opposite.
pub proof fn lemma_unit_range_is_symmetric(x: Binary32)
    requires
        x <= ONE,
    ensures
        0 <= pcm16_of(x) <= i16::MAX,
        pcm16_of((x + SIGN_BIT) as Binary32) == -pcm16_of(x),
{
    let e = exponent_field(x);
    let opposite = (x + SIGN_BIT) as Binary32;
    assert(exponent_field(opposite) == e && fraction_field(opposite) == fraction_field(x));
    if e > 0 {
        let product = (EXPONENT_UNIT + fraction_field(x)) * PCM_SCALE;
        let place: int = if product < 0x40_0000_0000 {
            14
        } else {
            15
        };
        let unit = pow2(place as nat) as int;
        let rounded = round_half_even(product, unit);
        let down = (150 - place - e) as nat;
        lemma2_to64();
        if down > 10 {
            lemma_pow2_strictly_increases(10, down);
        }
        let divisor = pow2(down) as int;
        if place == 15 || e == 127 {
            // The rounded product is at most 32767 * 2^9, and divided by 2^9 or more.
            lemma_div_is_ordered(rounded, 0xff_fe00, divisor);
            lemma_div_is_ordered_by_denominator(0xff_fe00, 512, divisor);
        } else {
            // The rounded product is at most 2^24, and divided by 2^10 or more.
            lemma_div_is_ordered(rounded, 0x100_0000, divisor);
            lemma_div_is_ordered_by_denominator(0x100_0000, 1024, divisor);
        }
    }
}

} // verus!
