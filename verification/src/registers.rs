//! Register map of the I3G4250D and the bit fields that the driver writes.

use vstd::prelude::*;

verus! {

/// WHO_AM_I register; reads 0xD3 on an I3G4250D.
pub const WHO_AM_I: u8 = 0x0F;

/// CTRL_REG1: data rate [7:6], bandwidth [5:4], power down [3], axis enables [2:0].
pub const CTRL_REG1: u8 = 0x20;

/// CTRL_REG2: high-pass filter configuration.
pub const CTRL_REG2: u8 = 0x21;

/// CTRL_REG3: interrupt configuration.
pub const CTRL_REG3: u8 = 0x22;

/// CTRL_REG4: endianness [6], full scale [5:4].
pub const CTRL_REG4: u8 = 0x23;

/// CTRL_REG5: FIFO and SPI mode.
pub const CTRL_REG5: u8 = 0x24;

/// Temperature output register.
pub const TEMP: u8 = 0x26;

/// Angular rate output registers, low and high byte of each axis.
pub const OUT_X_L: u8 = 0x28;
pub const OUT_X_H: u8 = 0x29;
pub const OUT_Y_L: u8 = 0x2A;
pub const OUT_Y_H: u8 = 0x2B;
pub const OUT_Z_L: u8 = 0x2C;
pub const OUT_Z_H: u8 = 0x2D;

/// Data rate codes, already placed at CTRL_REG1 bits [7:6].
pub const DR_100_HZ: u8 = 0x00;
pub const DR_200_HZ: u8 = 0x40;
pub const DR_400_HZ: u8 = 0x80;
pub const DR_800_HZ: u8 = 0xC0;

/// Full scale codes, already placed at CTRL_REG4 bits [5:4].
pub const FS_245_DPS: u8 = 0x00;
pub const FS_500_DPS: u8 = 0x10;
pub const FS_2000_DPS_1: u8 = 0x20;
pub const FS_2000_DPS_2: u8 = 0x30;

/// Mask of the CTRL_REG1 bits that a data rate change keeps ([5:0]).
pub const CTRL_REG1_KEEP: u8 = 0x3F;

/// Mask of the CTRL_REG4 bits that a full scale change keeps ([7:6] and [3:0]).
pub const CTRL_REG4_KEEP: u8 = 0xCF;

/// Full-scale range selection.
#[derive(Clone, Copy, Debug, PartialEq, Eq, Structural)]
pub enum Range {
    /// 245 °/s, 8.75 mdps/LSB
    DPS245,
    /// 500 °/s, 17.5 mdps/LSB
    DPS500,
    /// 2000 °/s, 70 mdps/LSB
    DPS2000_1,
    /// 2000 °/s, 70 mdps/LSB
    DPS2000_2,
}

/// Output data rate selection.
#[derive(Clone, Copy, Debug, PartialEq, Eq, Structural)]
pub enum DataRate {
    /// 100 Hz
    Hz100,
    /// 200 Hz
    Hz200,
    /// 400 Hz
    Hz400,
    /// 800 Hz
    Hz800,
}

impl Range {
    /// The two-bit FS code of this range.
    pub open spec fn fs_code(self) -> u8 {
        match self {
            Range::DPS245 => 0,
            Range::DPS500 => 1,
            Range::DPS2000_1 => 2,
            Range::DPS2000_2 => 3,
        }
    }

    /// The range whose FS field, CTRL_REG4 bits [5:4], is set in `reg`.
    pub open spec fn from_ctrl_reg4(reg: u8) -> Range {
        let code = (reg / 16) % 4;
        if code == 0 {
            Range::DPS245
        } else if code == 1 {
            Range::DPS500
        } else if code == 2 {
            Range::DPS2000_1
        } else {
            Range::DPS2000_2
        }
    }

    /// Sensitivity in micro-degrees per second per LSB.
    pub open spec fn sensitivity_udps(self) -> u32 {
        match self {
            Range::DPS245 => 8750,
            Range::DPS500 => 17500,
            Range::DPS2000_1 => 70000,
            Range::DPS2000_2 => 70000,
        }
    }

    /// The value of CTRL_REG4 bits [5:4] for this range, with every other bit clear.
    pub fn ctrl_reg4_bits(&self) -> (bits: u8)
        ensures
            bits == self.fs_code() * 16,
    {
        match self {
            Range::DPS245 => FS_245_DPS,
            Range::DPS500 => FS_500_DPS,
            Range::DPS2000_1 => FS_2000_DPS_1,
            Range::DPS2000_2 => FS_2000_DPS_2,
        }
    }

    /// The scale factor in micro-degrees per second per LSB: 1000 times the
    /// mdps/LSB factor (8.75, 17.5, 70, 70) of the range.
    pub fn scale_factor_udps(&self) -> (f: u32)
        ensures
            f == self.sensitivity_udps(),
    {
        match self {
            Range::DPS245 => 8750,
            Range::DPS500 => 17500,
            Range::DPS2000_1 => 70000,
            Range::DPS2000_2 => 70000,
        }
    }
}

impl DataRate {
    /// The two-bit DR code of this rate.
    pub open spec fn dr_code(self) -> u8 {
        match self {
            DataRate::Hz100 => 0,
            DataRate::Hz200 => 1,
            DataRate::Hz400 => 2,
            DataRate::Hz800 => 3,
        }
    }

    /// The rate whose DR field, CTRL_REG1 bits [7:6], is set in `reg`.
    pub open spec fn from_ctrl_reg1(reg: u8) -> DataRate {
        let code = reg / 64;
        if code == 0 {
            DataRate::Hz100
        } else if code == 1 {
            DataRate::Hz200
        } else if code == 2 {
            DataRate::Hz400
        } else {
            DataRate::Hz800
        }
    }

    /// The value of CTRL_REG1 bits [7:6] for this rate, with every other bit clear.
    pub fn ctrl_reg1_bits(&self) -> (bits: u8)
        ensures
            bits == self.dr_code() * 64,
    {
        match self {
            DataRate::Hz100 => DR_100_HZ,
            DataRate::Hz200 => DR_200_HZ,
            DataRate::Hz400 => DR_400_HZ,
            DataRate::Hz800 => DR_800_HZ,
        }
    }
}

/// Each code sits in its own field and names its setting back: the data rate
/// bits touch only CTRL_REG1 [7:6], the full-scale bits only CTRL_REG4 [5:4],
/// and reading the field of the bits gives the same setting, so distinct
/// settings have distinct bits.
pub proof fn law_field_codes(rate: DataRate, range: Range)
    ensures
        ((rate.dr_code() * 64) as u8) & CTRL_REG1_KEEP == 0,
        DataRate::from_ctrl_reg1((rate.dr_code() * 64) as u8) == rate,
        ((range.fs_code() * 16) as u8) & CTRL_REG4_KEEP == 0,
        Range::from_ctrl_reg4((range.fs_code() * 16) as u8) == range,
{
    assert(0x40u8 & 0x3Fu8 == 0 && 0x80u8 & 0x3Fu8 == 0 && 0xC0u8 & 0x3Fu8 == 0) by (bit_vector);
    assert(0x10u8 & 0xCFu8 == 0 && 0x20u8 & 0xCFu8 == 0 && 0x30u8 & 0xCFu8 == 0) by (bit_vector);
    assert(0u8 & 0x3Fu8 == 0 && 0u8 & 0xCFu8 == 0) by (bit_vector);
}

/// The codes of the datasheet: DR 00/01/10/11 for 100/200/400/800 Hz, FS
/// 00/01/10/11 for DPS245/DPS500/DPS2000_1/DPS2000_2, and a register byte
/// names the rate of its bits [7:6] and the range of its bits [5:4].
pub proof fn law_code_table(reg: u8)
    ensures
        DataRate::Hz100.dr_code() == 0 && DataRate::Hz200.dr_code() == 1,
        DataRate::Hz400.dr_code() == 2 && DataRate::Hz800.dr_code() == 3,
        Range::DPS245.fs_code() == 0 && Range::DPS500.fs_code() == 1,
        Range::DPS2000_1.fs_code() == 2 && Range::DPS2000_2.fs_code() == 3,
        DataRate::from_ctrl_reg1(reg).dr_code() == reg / 64,
        Range::from_ctrl_reg4(reg).fs_code() == (reg / 16) % 4,
        Range::DPS245.sensitivity_udps() == 8750 && Range::DPS500.sensitivity_udps() == 17500,
        Range::DPS2000_1.sensitivity_udps() == 70000 && Range::DPS2000_2.sensitivity_udps() == 70000,
{
}

} // verus!
