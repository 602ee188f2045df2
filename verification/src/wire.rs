//! What goes over the bus: register writes, and 16-bit values as two bytes,
//! high byte first.

use vstd::prelude::*;

verus! {

/// A multi-byte write to one register of the controller.
#[derive(Clone, Copy, Debug, PartialEq, Eq)]
pub struct BlockWrite {
    /// Address of the register.
    pub register: u8,
    /// The bytes to write, in the order in which they go on the wire.
    pub bytes: [u8; 2],
}

/// The two bytes that carry a 16-bit value: the high byte, then the low byte.
pub open spec fn word_bytes(value: u16) -> [u8; 2] {
    [(value >> 8) as u8, (value & 0xff) as u8]
}

/// The 16-bit value that two bytes carry, `high` having come first.
pub open spec fn word_of(high: u8, low: u8) -> u16 {
    (high as u16) << 8 | (low as u16)
}

/// The high byte of a value is its quotient by 256, the low byte its
/// remainder.
pub proof fn lemma_word_bytes(value: u16)
    ensures
        word_bytes(value)[0] == value / 256,
        word_bytes(value)[1] == value % 256,
{
    assert(value >> 8 == value / 256 && value & 0xff == value % 256) by (bit_vector);
}

/// The value of two bytes is 256 times the high byte, plus the low byte.
pub proof fn lemma_word_of(high: u8, low: u8)
    ensures
        word_of(high, low) == high * 256 + low,
{
    assert((high as u16) << 8 | (low as u16) == high * 256 + low) by (bit_vector);
}

/// Splits a 16-bit value into the two bytes that carry it.
pub fn encode_word(value: u16) -> (bytes: [u8; 2])
    ensures
        bytes == word_bytes(value),
        bytes[0] == value / 256,
        bytes[1] == value % 256,
{
    proof {
        lemma_word_bytes(value);
    }
    [(value >> 8) as u8, (value & 0xff) as u8]
}

/// Puts the 16-bit value together from the two bytes that carry it.
pub fn decode_word(high: u8, low: u8) -> (value: u16)
    ensures
        value == word_of(high, low),
        value == high * 256 + low,
{
    proof {
        lemma_word_of(high, low);
    }
    (high as u16) << 8 | (low as u16)
}

} // verus!
