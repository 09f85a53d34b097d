//! Conversion of the sensor's left-justified fixed-point temperature register
//! into the decimal tenths-of-a-degree value the radio frame carries.
//!
//! The register is split into a whole-degree part and a four-bit binary
//! fraction; the fraction maps through a rounding table to a decimal digit.
//! The table differs for negative whole parts at the quarter marks, because
//! the whole part is taken by flooring and that moves two fractional values
//! to the other side of a rounding boundary.

use vstd::prelude::*;

verus! {

/// Decimal digit, in tenths, for a four-bit binary fraction (sixteenths).
/// `non_negative` selects the table for a non-negative whole part; the tables
/// differ only at indices 4 (0.25) and 12 (0.75).
pub open spec fn frac_digit(frac_bin: int, non_negative: bool) -> int {
    if non_negative {
        seq![0int, 1, 1, 2, 3, 3, 4, 4, 5, 6, 6, 7, 8, 8, 9, 9][frac_bin]
    } else {
        seq![0int, 1, 1, 2, 2, 3, 4, 4, 5, 6, 6, 7, 7, 8, 9, 9][frac_bin]
    }
}

/// Decimal tenths-of-a-degree encoding of a temperature register: the whole
/// part (floor of the register over 128) times ten, plus the rounded digit of
/// the four-bit fraction.
pub open spec fn convert_spec(reg: i16) -> int {
    (reg as int / 128) * 10 + frac_digit((reg as int % 128) / 8, reg >= 0)
}

/// Convert a left-justified 9.4 fixed-point temperature register (the format
/// of sensors such as the TMP102 in extended mode) to decimal tenths of a
/// degree.
pub fn convert_temperature(temp_reg: i16) -> (r: i16)
    ensures
        r as int == convert_spec(temp_reg),
{
    let temp_whole = temp_reg >> 7;
    // Binary fractional part, out of 16
    let temp_frac_bin = ((temp_reg & 0x7f) >> 3) as u8;
    proof {
        assert((temp_reg >> 7) as int == temp_reg as int / 128) by (bit_vector);
        assert(((temp_reg & 0x7f) >> 3) as u8 as int == (temp_reg as int % 128) / 8)
            by (bit_vector);
        assert((((temp_reg & 0x7f) >> 3) as u8) < 16) by (bit_vector);
        assert((temp_reg >> 7) >= 0 <==> temp_reg >= 0) by (bit_vector);
        assert(-256 <= (temp_reg >> 7) < 256) by (bit_vector);
    }
    // Convert to decimal fraction, with proper rounding
    let temp_frac: u8 = if temp_whole >= 0 {
        match temp_frac_bin {
            0 => 0,  // 0
            1 => 1,  // 0.0625
            2 => 1,  // 0.125
            3 => 2,  // 0.1875
            4 => 3,  // 0.25
            5 => 3,  // 0.3125
            6 => 4,  // 0.375
            7 => 4,  // 0.4375
            8 => 5,  // 0.5
            9 => 6,  // 0.5625
            10 => 6, // 0.625
            11 => 7, // 0.6875
            12 => 8, // 0.75
            13 => 8, // 0.8125
            14 => 9, // 0.875
            _ => 9,  // 0.9375
        }
    } else {
        match temp_frac_bin {
            0 => 0,  // 0
            1 => 1,  // 0.0625
            2 => 1,  // 0.125
            3 => 2,  // 0.1875
            4 => 2,  // 0.25
            5 => 3,  // 0.3125
            6 => 4,  // 0.375
            7 => 4,  // 0.4375
            8 => 5,  // 0.5
            9 => 6,  // 0.5625
            10 => 6, // 0.625
            11 => 7, // 0.6875
            12 => 7, // 0.75
            13 => 8, // 0.8125
            14 => 9, // 0.875
            _ => 9,  // 0.9375
        }
    };
    temp_whole * 10 + temp_frac as i16
}

} // verus!
