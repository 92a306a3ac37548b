//! The controller's single-byte command opcodes.

use vstd::prelude::*;

verus! {

/// The closed set of command opcodes the CH1115 controller understands.
///
/// Each variant corresponds to one datasheet command byte, given by
/// [`Instruction::value`]. `SetLowerColumnAddress`, `SetHigherColumnAddress`,
/// `SetPumpVoltage`, `SetDisplayStartLine`, `SetPageAddress`,
/// `SetSegmentRemap` and `SetCommonOutputScanDir` carry their argument
/// OR-combined into the opcode byte itself rather than in a trailing
/// parameter byte.
#[derive(Copy, Clone, Debug, PartialEq, Eq)]
pub enum Instruction {
    SetEntireDisplayResume,
    SetEntireDisplayOn,
    SetDisplayNormal,
    SetDisplayInverse,
    SetDisplayOff,
    SetDisplayOn,
    ReadModifyWrite,
    End,
    Nop,
    SetBreathingLight,
    AddHorizontalScrollSetup,
    HorizontalScrollSetup,
    SetScrollMode,
    SetHorizontalScroll,
    SetContrastControl,
    SetIrefResistor,
    SetDcDcControl,
    SetSegPadsHardwareConfig,
    SetMultiplexRatio,
    SetDisplayOffset,
    SetDisplayClockDivide,
    SetPreChargePeriod,
    SetVcomDeselectLevel,
    SetRowNonOverlap,
    SetLowerColumnAddress,
    SetHigherColumnAddress,
    SetPumpVoltage,
    SetDisplayStartLine,
    SetPageAddress,
    SetSegmentRemap,
    SetCommonOutputScanDir,
    SetAdaptivePowerSave,
}

impl Instruction {
    /// The datasheet byte value of this opcode.
    pub open spec fn spec_value(self) -> u8 {
        match self {
            Instruction::SetEntireDisplayResume => 0xA4,
            Instruction::SetEntireDisplayOn => 0xA5,
            Instruction::SetDisplayNormal => 0xA6,
            Instruction::SetDisplayInverse => 0xA7,
            Instruction::SetDisplayOff => 0xAE,
            Instruction::SetDisplayOn => 0xAF,
            Instruction::ReadModifyWrite => 0xE0,
            Instruction::End => 0xEE,
            Instruction::Nop => 0xE3,
            Instruction::SetBreathingLight => 0x23,
            Instruction::AddHorizontalScrollSetup => 0x24,
            Instruction::HorizontalScrollSetup => 0x26,
            Instruction::SetScrollMode => 0x28,
            Instruction::SetHorizontalScroll => 0x2E,
            Instruction::SetContrastControl => 0x81,
            Instruction::SetIrefResistor => 0x82,
            Instruction::SetDcDcControl => 0xAD,
            Instruction::SetSegPadsHardwareConfig => 0xA2,
            Instruction::SetMultiplexRatio => 0xA8,
            Instruction::SetDisplayOffset => 0xD3,
            Instruction::SetDisplayClockDivide => 0xD5,
            Instruction::SetPreChargePeriod => 0xD9,
            Instruction::SetVcomDeselectLevel => 0xDB,
            Instruction::SetRowNonOverlap => 0xDC,
            Instruction::SetLowerColumnAddress => 0x00,
            Instruction::SetHigherColumnAddress => 0x10,
            Instruction::SetPumpVoltage => 0x30,
            Instruction::SetDisplayStartLine => 0x40,
            Instruction::SetPageAddress => 0xB0,
            Instruction::SetSegmentRemap => 0xA0,
            Instruction::SetCommonOutputScanDir => 0xC0,
            Instruction::SetAdaptivePowerSave => 0xD6,
        }
    }

    /// Returns the datasheet byte value of this opcode.
    pub fn value(self) -> (r: u8)
        ensures
            r == self.spec_value(),
    {
        match self {
            Instruction::SetEntireDisplayResume => 0xA4,
            Instruction::SetEntireDisplayOn => 0xA5,
            Instruction::SetDisplayNormal => 0xA6,
            Instruction::SetDisplayInverse => 0xA7,
            Instruction::SetDisplayOff => 0xAE,
            Instruction::SetDisplayOn => 0xAF,
            Instruction::ReadModifyWrite => 0xE0,
            Instruction::End => 0xEE,
            Instruction::Nop => 0xE3,
            Instruction::SetBreathingLight => 0x23,
            Instruction::AddHorizontalScrollSetup => 0x24,
            Instruction::HorizontalScrollSetup => 0x26,
            Instruction::SetScrollMode => 0x28,
            Instruction::SetHorizontalScroll => 0x2E,
            Instruction::SetContrastControl => 0x81,
            Instruction::SetIrefResistor => 0x82,
            Instruction::SetDcDcControl => 0xAD,
            Instruction::SetSegPadsHardwareConfig => 0xA2,
            Instruction::SetMultiplexRatio => 0xA8,
            Instruction::SetDisplayOffset => 0xD3,
            Instruction::SetDisplayClockDivide => 0xD5,
            Instruction::SetPreChargePeriod => 0xD9,
            Instruction::SetVcomDeselectLevel => 0xDB,
            Instruction::SetRowNonOverlap => 0xDC,
            Instruction::SetLowerColumnAddress => 0x00,
            Instruction::SetHigherColumnAddress => 0x10,
            Instruction::SetPumpVoltage => 0x30,
            Instruction::SetDisplayStartLine => 0x40,
            Instruction::SetPageAddress => 0xB0,
            Instruction::SetSegmentRemap => 0xA0,
            Instruction::SetCommonOutputScanDir => 0xC0,
            Instruction::SetAdaptivePowerSave => 0xD6,
        }
    }
}

/// The four brightness ranges the breathing-light effect can cycle over,
/// widest range first.
#[derive(Copy, Clone, Debug, PartialEq, Eq)]
pub enum MaxBrightness {
    _256,
    _128,
    _64,
    _32,
}

impl MaxBrightness {
    /// The two-bit range selector this variant encodes to.
    pub open spec fn spec_value(self) -> u8 {
        match self {
            MaxBrightness::_256 => 0b00,
            MaxBrightness::_128 => 0b01,
            MaxBrightness::_64 => 0b10,
            MaxBrightness::_32 => 0b11,
        }
    }

    /// Returns the two-bit range selector for this brightness range.
    pub fn value(self) -> (r: u8)
        ensures
            r == self.spec_value(),
    {
        match self {
            MaxBrightness::_256 => 0b00,
            MaxBrightness::_128 => 0b01,
            MaxBrightness::_64 => 0b10,
            MaxBrightness::_32 => 0b11,
        }
    }
}

} // verus!
