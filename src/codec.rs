use vstd::prelude::*;

verus! {

/// Bit `i` of `b`, as 0 or 1.
pub open spec fn bit_of(b: u8, i: u8) -> u8 {
    (b >> i) & 1
}

/// Little-endian composition of two bytes into a 16-bit value.
pub open spec fn le_value(lo: u8, hi: u8) -> int {
    hi as int * 256 + lo as int
}

/// Contents of the gain/time register: gain in the high nibble, time in the low one.
pub open spec fn gain_time_value(gain: u8, time: u8) -> u8 {
    (gain << 4u8) | time
}

/// Contents of the mode register: mode in bits 6-7, sync break from bit 4, clock in the low bits.
pub open spec fn mode_value(mmode: u8, sb: u8, cclk: u8) -> u8 {
    (mmode << 6u8) | (sb << 4u8) | cclk
}

/// `flags` holds bit `i` of `b` at index `i`, for all eight bits.
pub open spec fn is_status_flags(flags: Seq<u8>, b: u8) -> bool {
    &&& flags.len() == 8
    &&& forall|i: int| 0 <= i < 8 ==> #[trigger] flags[i] == bit_of(b, i as u8)
}

/// `fields` is the decoded operating state of `b`: the 3-bit device state, then the
/// start flag (bit 7), the power flag (bit 6) and the reset flag (bit 3).
pub open spec fn is_mode_fields(fields: Seq<u8>, b: u8) -> bool {
    &&& fields.len() == 4
    &&& fields[0] == b % 8
    &&& fields[1] == b / 128
    &&& fields[2] == (b / 64) % 2
    &&& fields[3] == (b / 8) % 2
}

/// `words` holds the four little-endian 16-bit values of the eight bytes `bytes`, in order.
pub open spec fn is_le_words(words: Seq<u16>, bytes: Seq<u8>) -> bool {
    &&& words.len() == 4
    &&& bytes.len() == 8
    &&& forall|k: int| 0 <= k < 4 ==> #[trigger] words[k] == le_value(bytes[2 * k], bytes[2 * k + 1])
}

/// Encodes gain and integration time into the gain/time register byte.
/// Bits of `gain` above the low nibble do not fit the byte and are dropped.
pub fn gain_time_byte(gain: u8, time: u8) -> (r: u8)
    ensures
        r == gain_time_value(gain, time),
        gain < 16 && time < 16 ==> r == gain * 16 + time,
{
    let r = gain << 4u8 | time;
    assert(gain < 16 && time < 16 ==> (gain << 4u8) | time == gain * 16 + time) by (bit_vector);
    r
}

/// Encodes measurement mode, sync-break enable and conversion clock into the mode register byte.
pub fn mode_byte(mmode: u8, sb: u8, cclk: u8) -> (r: u8)
    ensures
        r == mode_value(mmode, sb, cclk),
        mmode < 4 && sb < 2 && cclk < 4 ==> r == mmode * 64 + sb * 16 + cclk,
{
    let r = mmode << 6u8 | sb << 4u8 | cclk;
    assert(mmode < 4 && sb < 2 && cclk < 4 ==> (mmode << 6u8) | (sb << 4u8) | cclk == mmode * 64
        + sb * 16 + cclk) by (bit_vector);
    r
}

/// Composes a 16-bit value from its low and high byte.
pub fn le_word(lo: u8, hi: u8) -> (r: u16)
    ensures
        r == le_value(lo, hi),
{
    let r = ((hi as u16) << 8u16) | (lo as u16);
    assert(((hi as u16) << 8u16) | (lo as u16) == hi as u16 * 256 + lo as u16) by (bit_vector);
    r
}

/// Splits a status byte into eight flags, index `i` holding bit `i`.
pub fn status_flags(b: u8) -> (r: [u8; 8])
    ensures
        is_status_flags(r@, b),
{
    let r = [
        (b & 0x01) >> 0u8,
        (b & 0x02) >> 1u8,
        (b & 0x04) >> 2u8,
        (b & 0x08) >> 3u8,
        (b & 0x10) >> 4u8,
        (b & 0x20) >> 5u8,
        (b & 0x40) >> 6u8,
        (b & 0x80) >> 7u8,
    ];
    assert((b & 0x01) >> 0u8 == (b >> 0u8) & 1) by (bit_vector);
    assert((b & 0x02) >> 1u8 == (b >> 1u8) & 1) by (bit_vector);
    assert((b & 0x04) >> 2u8 == (b >> 2u8) & 1) by (bit_vector);
    assert((b & 0x08) >> 3u8 == (b >> 3u8) & 1) by (bit_vector);
    assert((b & 0x10) >> 4u8 == (b >> 4u8) & 1) by (bit_vector);
    assert((b & 0x20) >> 5u8 == (b >> 5u8) & 1) by (bit_vector);
    assert((b & 0x40) >> 6u8 == (b >> 6u8) & 1) by (bit_vector);
    assert((b & 0x80) >> 7u8 == (b >> 7u8) & 1) by (bit_vector);
    assert forall|i: int| 0 <= i < 8 implies #[trigger] r@[i] == bit_of(b, i as u8) by {
        if i == 0 {
        } else if i == 1 {
        } else if i == 2 {
        } else if i == 3 {
        } else if i == 4 {
        } else if i == 5 {
        } else if i == 6 {
        } else {
        }
    }
    r
}

/// Decodes the operating-state byte into device state, start flag, power flag and reset flag.
pub fn mode_fields(b: u8) -> (r: [u8; 4])
    ensures
        is_mode_fields(r@, b),
{
    let r = [b & 0x07, (b & 0x80) >> 7u8, (b & 0x40) >> 6u8, (b & 0x08) >> 3u8];
    assert(b & 0x07 == b % 8) by (bit_vector);
    assert((b & 0x80) >> 7u8 == b / 128) by (bit_vector);
    assert((b & 0x40) >> 6u8 == (b / 64) % 2) by (bit_vector);
    assert((b & 0x08) >> 3u8 == (b / 8) % 2) by (bit_vector);
    r
}

/// Decodes an eight-byte burst into four little-endian 16-bit values.
pub fn le_words(bytes: &[u8]) -> (r: [u16; 4])
    requires
        bytes@.len() == 8,
    ensures
        is_le_words(r@, bytes@),
{
    let r = [
        le_word(bytes[0], bytes[1]),
        le_word(bytes[2], bytes[3]),
        le_word(bytes[4], bytes[5]),
        le_word(bytes[6], bytes[7]),
    ];
    assert forall|k: int| 0 <= k < 4 implies #[trigger] r@[k] == le_value(
        bytes@[2 * k],
        bytes@[2 * k + 1],
    ) by {
        if k == 0 {
        } else if k == 1 {
        } else if k == 2 {
        } else {
        }
    }
    r
}

} // verus!
