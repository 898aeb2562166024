//! SPI frames of the I3G4250D protocol and the decoding of what comes back.
//!
//! Every transaction is one full-duplex transfer with the chip selected: the
//! first byte sent is the command (bit 7 set for a read, bit 6 set for an
//! auto-incremented multi-byte access, bits [5:0] the register address), and
//! the bytes received in the positions after it carry the register contents.

use vstd::prelude::*;
use crate::registers::OUT_X_L;

verus! {

/// The command byte of a single-register read: the address with bit 7 set.
pub open spec fn read_command(reg: u8) -> u8 {
    reg | 0x80
}

/// The command byte of a single-register write: the address with bit 7 clear.
pub open spec fn write_command(reg: u8) -> u8 {
    reg & 0x7F
}

/// The frame that reads register `reg`: the read command and a dummy byte.
pub open spec fn read_frame(reg: u8) -> Seq<u8> {
    seq![read_command(reg), 0u8]
}

/// The frame that writes `value` to register `reg`.
pub open spec fn write_frame(reg: u8, value: u8) -> Seq<u8> {
    seq![write_command(reg), value]
}

/// The frame that reads the six output bytes X_L, X_H, Y_L, Y_H, Z_L, Z_H in one
/// auto-incremented transfer: the command 0x28 | 0xC0 and six dummy bytes.
pub open spec fn raw_data_frame() -> Seq<u8> {
    seq![OUT_X_L | 0xC0, 0u8, 0u8, 0u8, 0u8, 0u8, 0u8]
}

/// The signed 16-bit value whose little-endian bytes are `lo`, `hi`.
pub open spec fn le_i16(lo: u8, hi: u8) -> int {
    if hi < 128 {
        hi * 256 + lo
    } else {
        hi * 256 + lo - 65536
    }
}

/// The value of a byte read as a two's complement `i8`.
pub open spec fn byte_as_i8(b: u8) -> int {
    if b < 128 {
        b as int
    } else {
        b - 256
    }
}


/// A read command has bit 7 set and a write command has it clear; both keep
/// the register address in bits [6:0]. The output read also sets bit 6, which
/// makes the sensor advance the address after each byte.
pub proof fn law_command_bits(reg: u8)
    ensures
        read_command(reg) & 0x80 == 0x80,
        read_command(reg) & 0x7F == reg & 0x7F,
        write_command(reg) & 0x80 == 0,
        write_command(reg) & 0x7F == reg & 0x7F,
        raw_data_frame()[0] == read_command(OUT_X_L) | 0x40,
{
    assert(read_command(reg) & 0x80 == 0x80) by (bit_vector)
        requires
            read_command(reg) == reg | 0x80,
    ;
    assert(read_command(reg) & 0x7F == reg & 0x7F) by (bit_vector)
        requires
            read_command(reg) == reg | 0x80,
    ;
    assert(write_command(reg) & 0x80 == 0) by (bit_vector)
        requires
            write_command(reg) == reg & 0x7F,
    ;
    assert(write_command(reg) & 0x7F == reg & 0x7F) by (bit_vector)
        requires
            write_command(reg) == reg & 0x7F,
    ;
    assert(0x28u8 | 0xC0u8 == (0x28u8 | 0x80u8) | 0x40u8) by (bit_vector);
}

/// Little-endian decoding is the two's complement reading of `hi * 256 + lo`:
/// it lies in the range of `i16`, agrees with `hi * 256 + lo` modulo 65536, and
/// distinct byte pairs decode to distinct values.
pub proof fn law_le_i16(lo: u8, hi: u8, lo2: u8, hi2: u8)
    ensures
        -32768 <= le_i16(lo, hi) <= 32767,
        le_i16(lo, hi) % 65536 == hi * 256 + lo,
        le_i16(lo, hi) == le_i16(lo2, hi2) ==> lo == lo2 && hi == hi2,
{
}


/// The frames in bytes: a register read is two bytes, the command with bit 7
/// set and the address in bits [6:0], then a zero; a register write is the
/// command with bit 7 clear and the address in bits [6:0], then the value; the
/// output read is 0xE8 (read, auto-increment, OUT_X_L) and six zeros.
pub proof fn law_frames(reg: u8, value: u8)
    ensures
        read_frame(reg).len() == 2,
        read_frame(reg)[0] & 0x80 == 0x80,
        read_frame(reg)[0] & 0x7F == reg & 0x7F,
        read_frame(reg)[1] == 0,
        write_frame(reg, value).len() == 2,
        write_frame(reg, value)[0] & 0x80 == 0,
        write_frame(reg, value)[0] & 0x7F == reg & 0x7F,
        write_frame(reg, value)[1] == value,
        raw_data_frame().len() == 7,
        raw_data_frame()[0] == 0xE8,
        forall|i: int| 1 <= i < 7 ==> raw_data_frame()[i] == 0,
{
    law_command_bits(reg);
    assert(0x28u8 | 0xC0u8 == 0xE8u8) by (bit_vector);
}

/// Builds the frame that reads register `reg`.
pub fn read_register_frame(reg: u8) -> (frame: Vec<u8>)
    ensures
        frame@ == read_frame(reg),
{
    let mut frame: Vec<u8> = Vec::new();
    frame.push(reg | 0x80);
    frame.push(0);
    frame
}

/// Builds the frame that writes `value` to register `reg`.
pub fn write_register_frame(reg: u8, value: u8) -> (frame: Vec<u8>)
    ensures
        frame@ == write_frame(reg, value),
{
    let mut frame: Vec<u8> = Vec::new();
    frame.push(reg & 0x7F);
    frame.push(value);
    frame
}

/// Builds the frame that reads all six angular rate output bytes.
pub fn raw_data_read_frame() -> (frame: Vec<u8>)
    ensures
        frame@ == raw_data_frame(),
{
    let mut frame: Vec<u8> = Vec::new();
    frame.push(OUT_X_L | 0xC0);
    let mut i: usize = 0;
    while i < 6
        invariant
            i <= 6,
            frame@.len() == i + 1,
            frame@[0] == OUT_X_L | 0xC0,
            forall|j: int| 1 <= j <= i ==> frame@[j] == 0u8,
        decreases 6 - i,
    {
        frame.push(0);
        i = i + 1;
    }
    assert(frame@ =~= raw_data_frame());
    frame
}

/// Combines two bytes, low byte first, into a signed 16-bit value.
pub fn i16_from_le_bytes(lo: u8, hi: u8) -> (v: i16)
    ensures
        v as int == le_i16(lo, hi),
{
    let u: u16 = (hi as u16) * 256 + (lo as u16);
    if u < 32768 {
        u as i16
    } else {
        let w: i32 = (u as i32) - 65536;
        w as i16
    }
}

/// Reads a byte as a two's complement `i8`.
pub fn byte_to_i8(b: u8) -> (v: i8)
    ensures
        v as int == byte_as_i8(b),
{
    if b < 128 {
        b as i8
    } else {
        let w: i16 = (b as i16) - 256;
        w as i8
    }
}

} // verus!
