use vstd::prelude::*;

verus! {

/// A generic tagged number, covering the signed integer widths and the two
/// IEEE-754 binary floating-point widths. The floating-point variants carry
/// the raw bit pattern of the value, so that the arithmetic this library
/// performs on them stays within the integers.
#[derive(Clone, Copy, Debug, PartialEq, Eq, Structural)]
pub enum Number {
    Byte(i8),
    Short(i16),
    Int(i32),
    Long(i64),
    /// An IEEE-754 single-precision value, stored as its raw bit pattern.
    Float(u32),
    /// An IEEE-754 double-precision value, stored as its raw bit pattern.
    Double(u64),
}

/// An IEEE-754 single-precision value, carried as its raw bit pattern so
/// that the library's reasoning stays within the integers.
#[derive(Clone, Copy, Debug, PartialEq, Eq, Hash, Structural)]
pub struct FloatBits(pub u32);

/// An IEEE-754 double-precision value, carried as its raw bit pattern so
/// that the library's reasoning stays within the integers.
#[derive(Clone, Copy, Debug, PartialEq, Eq, Hash, Structural)]
pub struct DoubleBits(pub u64);

impl DeepView for FloatBits {
    type V = FloatBits;

    open spec fn deep_view(&self) -> FloatBits {
        *self
    }
}

impl DeepView for DoubleBits {
    type V = DoubleBits;

    open spec fn deep_view(&self) -> DoubleBits {
        *self
    }
}

/// Whether a double-precision bit pattern is not-a-number.
pub open spec fn double_bits_is_nan(bits: u64) -> bool {
    (bits >> 52) & 0x7ff == 0x7ff && bits & 0xf_ffff_ffff_ffff != 0
}

/// The IEEE-754 `less than or equal` on double-precision bit patterns:
/// false when either side is not-a-number, true between the two zeros, and
/// otherwise a sign-magnitude comparison.
pub open spec fn double_bits_le_spec(a: u64, b: u64) -> bool {
    if double_bits_is_nan(a) || double_bits_is_nan(b) {
        false
    } else {
        let a_mag = a & 0x7fff_ffff_ffff_ffff;
        let b_mag = b & 0x7fff_ffff_ffff_ffff;
        let a_neg = a >> 63 == 1;
        let b_neg = b >> 63 == 1;
        if a_mag == 0 && b_mag == 0 {
            true
        } else if a_neg != b_neg {
            a_neg
        } else if a_neg {
            a_mag >= b_mag
        } else {
            a_mag <= b_mag
        }
    }
}

/// Compares two double-precision bit patterns with IEEE-754 ordering.
pub fn double_bits_le(a: u64, b: u64) -> (r: bool)
    ensures
        r == double_bits_le_spec(a, b),
{
    let a_nan = (a >> 52) & 0x7ff == 0x7ff && a & 0xf_ffff_ffff_ffff != 0;
    let b_nan = (b >> 52) & 0x7ff == 0x7ff && b & 0xf_ffff_ffff_ffff != 0;
    if a_nan || b_nan {
        false
    } else {
        let a_mag = a & 0x7fff_ffff_ffff_ffff;
        let b_mag = b & 0x7fff_ffff_ffff_ffff;
        let a_neg = a >> 63 == 1;
        let b_neg = b >> 63 == 1;
        if a_mag == 0 && b_mag == 0 {
            true
        } else if a_neg != b_neg {
            a_neg
        } else if a_neg {
            a_mag >= b_mag
        } else {
            a_mag <= b_mag
        }
    }
}

/// Whether a single-precision bit pattern is not-a-number.
pub open spec fn float_bits_is_nan(bits: u32) -> bool {
    (bits >> 23) & 0xff == 0xff && bits & 0x7f_ffff != 0
}

/// The IEEE-754 `less than or equal` on single-precision bit patterns.
pub open spec fn float_bits_le_spec(a: u32, b: u32) -> bool {
    if float_bits_is_nan(a) || float_bits_is_nan(b) {
        false
    } else {
        let a_mag = a & 0x7fff_ffff;
        let b_mag = b & 0x7fff_ffff;
        let a_neg = a >> 31 == 1;
        let b_neg = b >> 31 == 1;
        if a_mag == 0 && b_mag == 0 {
            true
        } else if a_neg != b_neg {
            a_neg
        } else if a_neg {
            a_mag >= b_mag
        } else {
            a_mag <= b_mag
        }
    }
}

/// Compares two single-precision bit patterns with IEEE-754 ordering.
pub fn float_bits_le(a: u32, b: u32) -> (r: bool)
    ensures
        r == float_bits_le_spec(a, b),
{
    let a_nan = (a >> 23) & 0xff == 0xff && a & 0x7f_ffff != 0;
    let b_nan = (b >> 23) & 0xff == 0xff && b & 0x7f_ffff != 0;
    if a_nan || b_nan {
        false
    } else {
        let a_mag = a & 0x7fff_ffff;
        let b_mag = b & 0x7fff_ffff;
        let a_neg = a >> 31 == 1;
        let b_neg = b >> 31 == 1;
        if a_mag == 0 && b_mag == 0 {
            true
        } else if a_neg != b_neg {
            a_neg
        } else if a_neg {
            a_mag >= b_mag
        } else {
            a_mag <= b_mag
        }
    }
}

impl DeepView for Number {
    type V = Number;

    open spec fn deep_view(&self) -> Number {
        *self
    }
}

/// The value a double-precision bit pattern converts to when cast to a 64-bit
/// integer: truncation toward zero, saturating at the integer bounds, with
/// not-a-number going to zero.
pub open spec fn double_bits_to_i64_spec(bits: u64) -> i64 {
    let sign = bits >> 63;
    let exp_raw = (bits >> 52) & 0x7ff;
    let mant = bits & 0xf_ffff_ffff_ffff;
    if exp_raw == 0x7ff {
        if mant != 0 {
            0i64
        } else if sign == 0 {
            i64::MAX
        } else {
            i64::MIN
        }
    } else if exp_raw < 1075 {
        let shift = (1075 - exp_raw) as u64;
        if exp_raw == 0 || shift >= 53 {
            0i64
        } else {
            let m = mant | 0x10_0000_0000_0000;
            let magnitude = m >> shift;
            if sign == 0 {
                magnitude as i64
            } else {
                (-(magnitude as int)) as i64
            }
        }
    } else {
        let shift = (exp_raw - 1075) as u64;
        if shift >= 11 {
            if sign == 0 {
                i64::MAX
            } else {
                i64::MIN
            }
        } else {
            let m = mant | 0x10_0000_0000_0000;
            let magnitude = m << shift;
            if sign == 0 {
                magnitude as i64
            } else {
                (-(magnitude as int)) as i64
            }
        }
    }
}

/// Converts a double-precision bit pattern to a 64-bit integer with the usual
/// cast semantics: truncation toward zero, saturation, not-a-number to zero.
pub fn double_bits_to_i64(bits: u64) -> (r: i64)
    ensures
        r == double_bits_to_i64_spec(bits),
{
    let sign = bits >> 63;
    let exp_raw = (bits >> 52) & 0x7ff;
    let mant = bits & 0xf_ffff_ffff_ffff;
    proof {
        assert(sign <= 1 && exp_raw <= 0x7ff && mant <= 0xf_ffff_ffff_ffff) by (bit_vector)
            requires
                sign == bits >> 63 && exp_raw == (bits >> 52) & 0x7ff && mant == bits
                    & 0xf_ffff_ffff_ffff,
        ;
    }
    if exp_raw == 0x7ff {
        if mant != 0 {
            0
        } else if sign == 0 {
            i64::MAX
        } else {
            i64::MIN
        }
    } else if exp_raw < 1075 {
        let shift = 1075 - exp_raw;
        if exp_raw == 0 || shift >= 53 {
            0
        } else {
            let m = mant | 0x10_0000_0000_0000;
            let magnitude = m >> shift;
            proof {
                assert((mant | 0x10_0000_0000_0000u64) >> shift < 0x8000_0000_0000_0000u64)
                    by (bit_vector)
                    requires
                        mant <= 0xf_ffff_ffff_ffffu64 && shift >= 1u64,
                ;
            }
            if sign == 0 {
                magnitude as i64
            } else {
                -(magnitude as i64)
            }
        }
    } else {
        let shift = exp_raw - 1075;
        if shift >= 11 {
            if sign == 0 {
                i64::MAX
            } else {
                i64::MIN
            }
        } else {
            let m = mant | 0x10_0000_0000_0000;
            let magnitude = m << shift;
            proof {
                assert((mant | 0x10_0000_0000_0000u64) << shift < 0x8000_0000_0000_0000u64)
                    by (bit_vector)
                    requires
                        mant <= 0xf_ffff_ffff_ffffu64 && shift <= 10u64,
                ;
            }
            if sign == 0 {
                magnitude as i64
            } else {
                -(magnitude as i64)
            }
        }
    }
}

/// The value a single-precision bit pattern converts to when cast to a 64-bit
/// integer: truncation toward zero, saturating, with not-a-number to zero.
pub open spec fn float_bits_to_i64_spec(bits: u32) -> i64 {
    let sign = bits >> 31;
    let exp_raw = (bits >> 23) & 0xff;
    let mant = (bits & 0x7f_ffff) as u64;
    if exp_raw == 0xff {
        if mant != 0 {
            0i64
        } else if sign == 0 {
            i64::MAX
        } else {
            i64::MIN
        }
    } else if exp_raw < 150 {
        let shift = (150 - exp_raw) as u64;
        if exp_raw == 0 || shift >= 24 {
            0i64
        } else {
            let m = mant | 0x80_0000;
            let magnitude = m >> shift;
            if sign == 0 {
                magnitude as i64
            } else {
                (-(magnitude as int)) as i64
            }
        }
    } else {
        let shift = (exp_raw - 150) as u64;
        if shift >= 40 {
            if sign == 0 {
                i64::MAX
            } else {
                i64::MIN
            }
        } else {
            let m = mant | 0x80_0000;
            let magnitude = m << shift;
            if sign == 0 {
                magnitude as i64
            } else {
                (-(magnitude as int)) as i64
            }
        }
    }
}

/// Converts a single-precision bit pattern to a 64-bit integer with the usual
/// cast semantics: truncation toward zero, saturation, not-a-number to zero.
pub fn float_bits_to_i64(bits: u32) -> (r: i64)
    ensures
        r == float_bits_to_i64_spec(bits),
{
    let sign = bits >> 31;
    let exp_raw = (bits >> 23) & 0xff;
    let mant = (bits & 0x7f_ffff) as u64;
    proof {
        assert(bits >> 31 <= 1 && (bits >> 23) & 0xff <= 0xff && bits & 0x7f_ffff <= 0x7f_ffff)
            by (bit_vector);
    }
    if exp_raw == 0xff {
        if mant != 0 {
            0
        } else if sign == 0 {
            i64::MAX
        } else {
            i64::MIN
        }
    } else if exp_raw < 150 {
        let shift = (150 - exp_raw) as u64;
        if exp_raw == 0 || shift >= 24 {
            0
        } else {
            let m = mant | 0x80_0000;
            let magnitude = m >> shift;
            proof {
                assert((mant | 0x80_0000u64) >> shift < 0x100_0000u64) by (bit_vector)
                    requires
                        mant <= 0x7f_ffffu64 && shift >= 1u64,
                ;
            }
            if sign == 0 {
                magnitude as i64
            } else {
                -(magnitude as i64)
            }
        }
    } else {
        let shift = (exp_raw - 150) as u64;
        if shift >= 40 {
            if sign == 0 {
                i64::MAX
            } else {
                i64::MIN
            }
        } else {
            let m = mant | 0x80_0000;
            let magnitude = m << shift;
            proof {
                assert((mant | 0x80_0000u64) << shift < 0x8000_0000_0000_0000u64) by (bit_vector)
                    requires
                        mant <= 0x7f_ffffu64 && shift <= 39u64,
                ;
            }
            if sign == 0 {
                magnitude as i64
            } else {
                -(magnitude as i64)
            }
        }
    }
}

/// Clamps a 64-bit integer into the 32-bit range, which mirrors how a
/// floating-point value saturates when cast directly to 32 bits.
pub open spec fn clamp_i32_spec(v: i64) -> i32 {
    if v > i32::MAX as i64 {
        i32::MAX
    } else if v < i32::MIN as i64 {
        i32::MIN
    } else {
        v as i32
    }
}

fn clamp_i32(v: i64) -> (r: i32)
    ensures
        r == clamp_i32_spec(v),
{
    if v > i32::MAX as i64 {
        i32::MAX
    } else if v < i32::MIN as i64 {
        i32::MIN
    } else {
        v as i32
    }
}

impl Number {
    /// The 64-bit integer this number converts to: integer variants widen
    /// exactly (the long one truncates nothing), floating variants truncate
    /// toward zero and saturate.
    pub open spec fn to_i64_spec(self) -> i64 {
        match self {
            Number::Byte(b) => b as i64,
            Number::Short(s) => s as i64,
            Number::Int(i) => i as i64,
            Number::Long(l) => l,
            Number::Float(f) => float_bits_to_i64_spec(f),
            Number::Double(d) => double_bits_to_i64_spec(d),
        }
    }

    /// Converts this number to a 64-bit integer, as a direct cast would.
    pub fn to_i64(self) -> (r: i64)
        ensures
            r == self.to_i64_spec(),
    {
        match self {
            Self::Byte(b) => b as i64,
            Self::Short(s) => s as i64,
            Self::Int(i) => i as i64,
            Self::Long(l) => l,
            Self::Float(f) => float_bits_to_i64(f),
            Self::Double(d) => double_bits_to_i64(d),
        }
    }

    /// The 32-bit integer this number converts to: integer variants behave as
    /// a direct cast (the long one truncates), floating variants truncate
    /// toward zero and saturate at the 32-bit bounds.
    pub open spec fn to_i32_spec(self) -> i32 {
        match self {
            Number::Byte(b) => b as i32,
            Number::Short(s) => s as i32,
            Number::Int(i) => i,
            Number::Long(l) => l as i32,
            Number::Float(f) => clamp_i32_spec(float_bits_to_i64_spec(f)),
            Number::Double(d) => clamp_i32_spec(double_bits_to_i64_spec(d)),
        }
    }

    /// Converts this number to a 32-bit integer, as a direct cast would.
    pub fn to_i32(self) -> (r: i32)
        ensures
            r == self.to_i32_spec(),
    {
        match self {
            Self::Byte(b) => b as i32,
            Self::Short(s) => s as i32,
            Self::Int(i) => i,
            Self::Long(l) => #[verifier::truncate] (l as i32),
            Self::Float(f) => clamp_i32(float_bits_to_i64(f)),
            Self::Double(d) => clamp_i32(double_bits_to_i64(d)),
        }
    }

    /// The 16-bit integer this number converts to; as in Java, the number
    /// first converts to 32 bits and that value then truncates.
    pub open spec fn to_i16_spec(self) -> i16 {
        self.to_i32_spec() as i16
    }

    /// Converts this number to a 16-bit integer via the 32-bit conversion.
    pub fn to_i16(self) -> (r: i16)
        ensures
            r == self.to_i16_spec(),
    {
        #[verifier::truncate] (self.to_i32() as i16)
    }

    /// The 8-bit integer this number converts to; as in Java, the number
    /// first converts to 32 bits and that value then truncates.
    pub open spec fn to_i8_spec(self) -> i8 {
        self.to_i32_spec() as i8
    }

    /// Converts this number to an 8-bit integer via the 32-bit conversion.
    pub fn to_i8(self) -> (r: i8)
        ensures
            r == self.to_i8_spec(),
    {
        #[verifier::truncate] (self.to_i32() as i8)
    }

    /// The unsigned 8-bit integer this number converts to, truncating the
    /// 32-bit conversion.
    pub open spec fn to_u8_spec(self) -> u8 {
        self.to_i32_spec() as u8
    }

    /// Converts this number to an unsigned 8-bit integer via the 32-bit
    /// conversion.
    pub fn to_u8(self) -> (r: u8)
        ensures
            r == self.to_u8_spec(),
    {
        #[verifier::truncate] (self.to_i32() as u8)
    }
}

} // verus!
