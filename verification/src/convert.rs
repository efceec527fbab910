//! Conversion of native device samples to signed 16-bit PCM.
//!
//! Devices deliver either 16-bit integer samples, which pass through
//! unchanged, or 32-bit floating-point samples in [-1.0, 1.0].  Float
//! samples reach the library as their IEEE 754 bit pattern, so the
//! scaling by 32767 is carried out here in exact integer arithmetic:
//! the result is the scaled magnitude truncated toward zero, saturated
//! at the i16 bounds, with NaN mapping to 0.

use vstd::arithmetic::div_mod::lemma_basic_div;
use vstd::arithmetic::power2::{
    lemma2_to64, lemma2_to64_rest, lemma_pow2_pos, lemma_pow2_strictly_increases,
    lemma_pow2_unfold, pow2,
};
use vstd::prelude::*;

verus! {

/// The native sample encodings a capture device may report.  Only
/// `Int16` and `Float32` are supported; a session may not start with
/// any other format.
#[derive(Clone, Copy, PartialEq, Eq, Structural, Debug)]
pub enum SampleFormat {
    Int16,
    Float32,
    Other,
}

impl SampleFormat {
    /// Whether the recorder has a converter for this format.
    pub open spec fn supported(self) -> bool {
        self == SampleFormat::Int16 || self == SampleFormat::Float32
    }

    pub fn is_supported(&self) -> (r: bool)
        ensures
            r == self.supported(),
    {
        match self {
            SampleFormat::Int16 => true,
            SampleFormat::Float32 => true,
            SampleFormat::Other => false,
        }
    }
}

/// Native 16-bit samples already match the output encoding: the
/// converter is the identity.
pub fn convert_i16(sample: i16) -> (r: i16)
    ensures
        r == sample,
{
    sample
}

/// Sign bit of an IEEE 754 single-precision bit pattern.
pub open spec fn f32_sign(bits: u32) -> u32 {
    bits >> 31
}

/// Exponent field of an IEEE 754 single-precision bit pattern.
pub open spec fn f32_exp(bits: u32) -> u32 {
    (bits >> 23) & 0xFF
}

/// Fraction field of an IEEE 754 single-precision bit pattern.
pub open spec fn f32_frac(bits: u32) -> u32 {
    bits & 0x7F_FFFF
}

/// floor(|v| * 32767), where v is the finite value encoded by `bits`
/// (exponent field below 255).  A normal number has magnitude
/// (2^23 + frac) * 2^(exp - 150); a subnormal one, frac * 2^-149.
pub open spec fn scaled_mag(bits: u32) -> nat {
    if f32_exp(bits) == 0 {
        ((f32_frac(bits) * 32767) as nat) / pow2(149)
    } else if f32_exp(bits) >= 150 {
        (((f32_frac(bits) + 0x80_0000) * 32767) as nat) * pow2((f32_exp(bits) - 150) as nat)
    } else {
        (((f32_frac(bits) + 0x80_0000) * 32767) as nat) / pow2((150 - f32_exp(bits)) as nat)
    }
}

/// The converted value of a 32-bit float sample, as a mathematical
/// integer in [-32768, 32767]: the value scaled by 32767, truncated
/// toward zero and saturated; NaN converts to 0.
pub open spec fn convert_f32_spec(bits: u32) -> int {
    if f32_exp(bits) == 255 {
        if f32_frac(bits) != 0 {
            0
        } else if f32_sign(bits) == 1 {
            -32768
        } else {
            32767
        }
    } else {
        let m = scaled_mag(bits) as int;
        if f32_sign(bits) == 0 {
            if m > 32767 {
                32767
            } else {
                m
            }
        } else {
            if m >= 32768 {
                -32768
            } else {
                -m
            }
        }
    }
}

/// 2^k as a machine word.
fn pow2_u64(k: u32) -> (r: u64)
    requires
        k < 64,
    ensures
        r == pow2(k as nat),
{
    let mut i: u32 = 0;
    let mut r: u64 = 1;
    proof {
        lemma2_to64();
    }
    while i < k
        invariant
            i <= k < 64,
            r == pow2(i as nat),
        decreases k - i,
    {
        proof {
            lemma_pow2_unfold((i + 1) as nat);
            lemma_pow2_strictly_increases((i + 1) as nat, 64);
            lemma2_to64_rest();
        }
        r = r * 2;
        i = i + 1;
    }
    r
}

/// Convert one 32-bit float sample, given as its IEEE 754 bit
/// pattern, to a signed 16-bit PCM sample.
pub fn convert_f32_bits(bits: u32) -> (r: i16)
    ensures
        r as int == convert_f32_spec(bits),
{
    let sign: u32 = bits >> 31;
    let e: u32 = (bits >> 23) & 0xFF;
    let m: u32 = bits & 0x7F_FFFF;
    proof {
        assert(bits & 0x7F_FFFF < 0x80_0000) by (bit_vector);
        assert((bits >> 23) & 0xFF < 256) by (bit_vector);
        assert(bits >> 31 < 2) by (bit_vector);
    }
    if e == 255 {
        // NaN or an infinity
        if m != 0 {
            0
        } else if sign == 1 {
            -32768
        } else {
            32767
        }
    } else if e >= 150 {
        // |v| is an integer of at least 2^23: far beyond the i16 range
        proof {
            let num: nat = ((m + 0x80_0000) * 32767) as nat;
            let p: nat = pow2((e - 150) as nat);
            lemma_pow2_pos((e - 150) as nat);
            assert(num >= 0x80_0000 * 32767);
            assert(num * p >= num) by (nonlinear_arith)
                requires
                    p >= 1,
            ;
            assert(scaled_mag(bits) == num * p);
            assert(scaled_mag(bits) >= 32768);
        }
        if sign == 1 {
            -32768
        } else {
            32767
        }
    } else {
        let num: u64 = (if e == 0 {
            m as u64
        } else {
            (m + 0x80_0000) as u64
        }) * 32767;
        let k: u32 = if e == 0 {
            149
        } else {
            150 - e
        };
        proof {
            lemma2_to64_rest();
            assert(num < 0x80_0000_0000);
        }
        let mag: u64 = if k >= 39 {
            // num < 2^39 <= 2^k, so the quotient is 0
            proof {
                if (k as nat) > 39 {
                    lemma_pow2_strictly_increases(39, k as nat);
                }
                lemma_pow2_pos(k as nat);
                lemma_basic_div(num as int, pow2(k as nat) as int);
            }
            0
        } else {
            let d = pow2_u64(k);
            proof {
                lemma_pow2_pos(k as nat);
            }
            num / d
        };
        if sign == 0 {
            if mag > 32767 {
                32767
            } else {
                mag as i16
            }
        } else {
            if mag >= 32768 {
                -32768
            } else {
                -(mag as i16)
            }
        }
    }
}

} // verus!
