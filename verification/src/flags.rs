use vstd::prelude::*;

verus! {

/// Bit 1 of the status register: set when the last relevant result was zero.
pub const FLAG_ZERO: u8 = 0b0000_0010;

/// Bit 7 of the status register: mirrors bit 7 of the last relevant result.
pub const FLAG_NEGATIVE: u8 = 0b1000_0000;

/// Mask of the status bits that a zero/negative update must leave alone.
pub const FLAG_OTHERS: u8 = 0b0111_1101;

/// Status byte after an instruction produced `result`: the ZERO bit tracks
/// `result == 0`, the NEGATIVE bit tracks bit 7 of `result`, and every other
/// bit keeps its previous value.
pub open spec fn spec_update_flags(status: u8, result: u8) -> u8 {
    let s = if result == 0 {
        status | FLAG_ZERO
    } else {
        status & 0b1111_1101
    };
    if result & 0b1000_0000 != 0 {
        s | FLAG_NEGATIVE
    } else {
        s & 0b0111_1111
    }
}

/// For every status byte and every 8-bit result, the flag update sets ZERO
/// iff the result is zero, sets NEGATIVE iff bit 7 of the result is set, and
/// changes no other status bit.
pub proof fn lemma_update_flags(status: u8, result: u8)
    ensures
        spec_update_flags(status, result) & FLAG_ZERO != 0 <==> result == 0,
        spec_update_flags(status, result) & FLAG_NEGATIVE != 0 <==> result & 0b1000_0000 != 0,
        result & 0b1000_0000 != 0 <==> result >= 0x80,
        spec_update_flags(status, result) & FLAG_OTHERS == status & FLAG_OTHERS,
{
    assert(spec_update_flags(status, result) & FLAG_ZERO != 0 <==> result == 0) by (bit_vector);
    assert(spec_update_flags(status, result) & FLAG_NEGATIVE != 0 <==> result & 0b1000_0000 != 0)
        by (bit_vector);
    assert(result & 0b1000_0000 != 0 <==> result >= 0x80) by (bit_vector);
    assert(spec_update_flags(status, result) & FLAG_OTHERS == status & FLAG_OTHERS) by (bit_vector);
}

} // verus!
