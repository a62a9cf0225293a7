//! Bit-level decoding of the UART peripheral's flag and data registers.
//!
//! The second core reads the raw register words through a pointer published
//! once before it starts; the volatile accesses happen outside this crate,
//! which decides what the words mean: whether the receive FIFO holds data,
//! whether the transmit FIFO is full, and which byte a data-register read
//! carries.

use vstd::prelude::*;

verus! {

/// Flag register bit: receive FIFO empty.
pub const RXFE_BIT: u32 = 0x10;

/// Flag register bit: transmit FIFO full.
pub const TXFF_BIT: u32 = 0x20;

/// The receive FIFO holds data while the RXFE bit of the flag register word
/// `fr` is clear.
pub fn is_readable(fr: u32) -> (r: bool)
    ensures
        r == ((fr & RXFE_BIT) == 0),
{
    (fr & RXFE_BIT) == 0
}

/// The byte carried by a data-register read: the word's low eight bits (the
/// upper bits hold error flags, not data).
pub fn read_byte(dr: u32) -> (b: u8)
    ensures
        b == (dr & 0xff) as u8,
{
    proof {
        assert((dr & 0xff) <= 0xff) by (bit_vector);
    }
    (dr & 0xff) as u8
}

/// The transmit FIFO is full while the TXFF bit of the flag register word
/// `fr` is set.
pub fn is_tx_full(fr: u32) -> (r: bool)
    ensures
        r == ((fr & TXFF_BIT) != 0),
{
    (fr & TXFF_BIT) != 0
}

/// The data-register word that transmits byte `b`: the byte, zero-extended.
pub fn write_byte(b: u8) -> (w: u32)
    ensures
        w == b as u32,
{
    b as u32
}

} // verus!
