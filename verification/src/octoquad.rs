//! The OctoQuad encoder board on an I2C bus: its registers, read modes and read commands.
use crate::base_lynx_command::{LynxCommand, LynxCommandView};
use crate::i2c::PacketsInFlight;
use crate::lynx_commands::LynxI2CWriteReadMultipleBytesCommandData;
use vstd::prelude::*;

verus! {

/// The registers of the board, in address order.
#[allow(non_camel_case_types)]
#[derive(Debug, Copy, Clone, PartialEq, Eq, Structural)]
pub enum OctoQuadRegisters {
    CHIP_ID,
    FIRMWARE_VERSION_MAJOR,
    FIRMWARE_VERSION_MINOR,
    FIRMWARE_VERSION_ENGINEERING,
    COMMAND,
    COMMAND_DAT_0,
    COMMAND_DAT_1,
    COMMAND_DAT_2,
    COMMAND_DAT_3,
    COMMAND_DAT_4,
    COMMAND_DAT_5,
    COMMAND_DAT_6,
    LOCALIZER_YAW_AXIS,
    LOCALIZER_STATUS,
    LOCALIZER_VX,
    LOCALIZER_VY,
    LOCALIZER_VH,
    LOCALIZER_X,
    LOCALIZER_Y,
    LOCALIZER_H,
    LOCALIZER_CRC16,
    ENCODER_0_POSITION,
    ENCODER_1_POSITION,
    ENCODER_2_POSITION,
    ENCODER_3_POSITION,
    ENCODER_4_POSITION,
    ENCODER_5_POSITION,
    ENCODER_6_POSITION,
    ENCODER_7_POSITION,
    ENCODER_0_VELOCITY,
    ENCODER_1_VELOCITY,
    ENCODER_2_VELOCITY,
    ENCODER_3_VELOCITY,
    ENCODER_4_VELOCITY,
    ENCODER_5_VELOCITY,
    ENCODER_6_VELOCITY,
    ENCODER_7_VELOCITY,
    ENCODER_DATA_CRC16,
    UNKNOWN,
}

impl OctoQuadRegisters {
    /// The register address.
    pub open spec fn spec_addr(self) -> u8 {
        match self {
            OctoQuadRegisters::CHIP_ID => 0x00u8,
            OctoQuadRegisters::FIRMWARE_VERSION_MAJOR => 0x01u8,
            OctoQuadRegisters::FIRMWARE_VERSION_MINOR => 0x02u8,
            OctoQuadRegisters::FIRMWARE_VERSION_ENGINEERING => 0x03u8,
            OctoQuadRegisters::COMMAND => 0x04u8,
            OctoQuadRegisters::COMMAND_DAT_0 => 0x05u8,
            OctoQuadRegisters::COMMAND_DAT_1 => 0x06u8,
            OctoQuadRegisters::COMMAND_DAT_2 => 0x07u8,
            OctoQuadRegisters::COMMAND_DAT_3 => 0x08u8,
            OctoQuadRegisters::COMMAND_DAT_4 => 0x09u8,
            OctoQuadRegisters::COMMAND_DAT_5 => 0x0Au8,
            OctoQuadRegisters::COMMAND_DAT_6 => 0x0Bu8,
            OctoQuadRegisters::LOCALIZER_YAW_AXIS => 0x0Cu8,
            OctoQuadRegisters::LOCALIZER_STATUS => 0x0Du8,
            OctoQuadRegisters::LOCALIZER_VX => 0x0Eu8,
            OctoQuadRegisters::LOCALIZER_VY => 0x10u8,
            OctoQuadRegisters::LOCALIZER_VH => 0x12u8,
            OctoQuadRegisters::LOCALIZER_X => 0x14u8,
            OctoQuadRegisters::LOCALIZER_Y => 0x16u8,
            OctoQuadRegisters::LOCALIZER_H => 0x18u8,
            OctoQuadRegisters::LOCALIZER_CRC16 => 0x1Au8,
            OctoQuadRegisters::ENCODER_0_POSITION => 0x1Cu8,
            OctoQuadRegisters::ENCODER_1_POSITION => 0x20u8,
            OctoQuadRegisters::ENCODER_2_POSITION => 0x24u8,
            OctoQuadRegisters::ENCODER_3_POSITION => 0x28u8,
            OctoQuadRegisters::ENCODER_4_POSITION => 0x2Cu8,
            OctoQuadRegisters::ENCODER_5_POSITION => 0x30u8,
            OctoQuadRegisters::ENCODER_6_POSITION => 0x34u8,
            OctoQuadRegisters::ENCODER_7_POSITION => 0x38u8,
            OctoQuadRegisters::ENCODER_0_VELOCITY => 0x3Cu8,
            OctoQuadRegisters::ENCODER_1_VELOCITY => 0x3Eu8,
            OctoQuadRegisters::ENCODER_2_VELOCITY => 0x40u8,
            OctoQuadRegisters::ENCODER_3_VELOCITY => 0x42u8,
            OctoQuadRegisters::ENCODER_4_VELOCITY => 0x44u8,
            OctoQuadRegisters::ENCODER_5_VELOCITY => 0x46u8,
            OctoQuadRegisters::ENCODER_6_VELOCITY => 0x48u8,
            OctoQuadRegisters::ENCODER_7_VELOCITY => 0x4Au8,
            OctoQuadRegisters::ENCODER_DATA_CRC16 => 0x4Cu8,
            OctoQuadRegisters::UNKNOWN => 0x4Eu8,
        }
    }

    /// The register that follows in address order; none after the last one.
    pub open spec fn spec_next(self) -> Option<OctoQuadRegisters> {
        match self {
            OctoQuadRegisters::CHIP_ID => Some(OctoQuadRegisters::FIRMWARE_VERSION_MAJOR),
            OctoQuadRegisters::FIRMWARE_VERSION_MAJOR => Some(OctoQuadRegisters::FIRMWARE_VERSION_MINOR),
            OctoQuadRegisters::FIRMWARE_VERSION_MINOR => Some(OctoQuadRegisters::FIRMWARE_VERSION_ENGINEERING),
            OctoQuadRegisters::FIRMWARE_VERSION_ENGINEERING => Some(OctoQuadRegisters::COMMAND),
            OctoQuadRegisters::COMMAND => Some(OctoQuadRegisters::COMMAND_DAT_0),
            OctoQuadRegisters::COMMAND_DAT_0 => Some(OctoQuadRegisters::COMMAND_DAT_1),
            OctoQuadRegisters::COMMAND_DAT_1 => Some(OctoQuadRegisters::COMMAND_DAT_2),
            OctoQuadRegisters::COMMAND_DAT_2 => Some(OctoQuadRegisters::COMMAND_DAT_3),
            OctoQuadRegisters::COMMAND_DAT_3 => Some(OctoQuadRegisters::COMMAND_DAT_4),
            OctoQuadRegisters::COMMAND_DAT_4 => Some(OctoQuadRegisters::COMMAND_DAT_5),
            OctoQuadRegisters::COMMAND_DAT_5 => Some(OctoQuadRegisters::COMMAND_DAT_6),
            OctoQuadRegisters::COMMAND_DAT_6 => Some(OctoQuadRegisters::LOCALIZER_YAW_AXIS),
            OctoQuadRegisters::LOCALIZER_YAW_AXIS => Some(OctoQuadRegisters::LOCALIZER_STATUS),
            OctoQuadRegisters::LOCALIZER_STATUS => Some(OctoQuadRegisters::LOCALIZER_VX),
            OctoQuadRegisters::LOCALIZER_VX => Some(OctoQuadRegisters::LOCALIZER_VY),
            OctoQuadRegisters::LOCALIZER_VY => Some(OctoQuadRegisters::LOCALIZER_VH),
            OctoQuadRegisters::LOCALIZER_VH => Some(OctoQuadRegisters::LOCALIZER_X),
            OctoQuadRegisters::LOCALIZER_X => Some(OctoQuadRegisters::LOCALIZER_Y),
            OctoQuadRegisters::LOCALIZER_Y => Some(OctoQuadRegisters::LOCALIZER_H),
            OctoQuadRegisters::LOCALIZER_H => Some(OctoQuadRegisters::LOCALIZER_CRC16),
            OctoQuadRegisters::LOCALIZER_CRC16 => Some(OctoQuadRegisters::ENCODER_0_POSITION),
            OctoQuadRegisters::ENCODER_0_POSITION => Some(OctoQuadRegisters::ENCODER_1_POSITION),
            OctoQuadRegisters::ENCODER_1_POSITION => Some(OctoQuadRegisters::ENCODER_2_POSITION),
            OctoQuadRegisters::ENCODER_2_POSITION => Some(OctoQuadRegisters::ENCODER_3_POSITION),
            OctoQuadRegisters::ENCODER_3_POSITION => Some(OctoQuadRegisters::ENCODER_4_POSITION),
            OctoQuadRegisters::ENCODER_4_POSITION => Some(OctoQuadRegisters::ENCODER_5_POSITION),
            OctoQuadRegisters::ENCODER_5_POSITION => Some(OctoQuadRegisters::ENCODER_6_POSITION),
            OctoQuadRegisters::ENCODER_6_POSITION => Some(OctoQuadRegisters::ENCODER_7_POSITION),
            OctoQuadRegisters::ENCODER_7_POSITION => Some(OctoQuadRegisters::ENCODER_0_VELOCITY),
            OctoQuadRegisters::ENCODER_0_VELOCITY => Some(OctoQuadRegisters::ENCODER_1_VELOCITY),
            OctoQuadRegisters::ENCODER_1_VELOCITY => Some(OctoQuadRegisters::ENCODER_2_VELOCITY),
            OctoQuadRegisters::ENCODER_2_VELOCITY => Some(OctoQuadRegisters::ENCODER_3_VELOCITY),
            OctoQuadRegisters::ENCODER_3_VELOCITY => Some(OctoQuadRegisters::ENCODER_4_VELOCITY),
            OctoQuadRegisters::ENCODER_4_VELOCITY => Some(OctoQuadRegisters::ENCODER_5_VELOCITY),
            OctoQuadRegisters::ENCODER_5_VELOCITY => Some(OctoQuadRegisters::ENCODER_6_VELOCITY),
            OctoQuadRegisters::ENCODER_6_VELOCITY => Some(OctoQuadRegisters::ENCODER_7_VELOCITY),
            OctoQuadRegisters::ENCODER_7_VELOCITY => Some(OctoQuadRegisters::ENCODER_DATA_CRC16),
            _ => None,
        }
    }

    /// The register with address `a`, if any.
    pub open spec fn spec_from_addr(a: u8) -> Option<OctoQuadRegisters> {
        match a {
            0x00u8 => Some(OctoQuadRegisters::CHIP_ID),
            0x01u8 => Some(OctoQuadRegisters::FIRMWARE_VERSION_MAJOR),
            0x02u8 => Some(OctoQuadRegisters::FIRMWARE_VERSION_MINOR),
            0x03u8 => Some(OctoQuadRegisters::FIRMWARE_VERSION_ENGINEERING),
            0x04u8 => Some(OctoQuadRegisters::COMMAND),
            0x05u8 => Some(OctoQuadRegisters::COMMAND_DAT_0),
            0x06u8 => Some(OctoQuadRegisters::COMMAND_DAT_1),
            0x07u8 => Some(OctoQuadRegisters::COMMAND_DAT_2),
            0x08u8 => Some(OctoQuadRegisters::COMMAND_DAT_3),
            0x09u8 => Some(OctoQuadRegisters::COMMAND_DAT_4),
            0x0Au8 => Some(OctoQuadRegisters::COMMAND_DAT_5),
            0x0Bu8 => Some(OctoQuadRegisters::COMMAND_DAT_6),
            0x0Cu8 => Some(OctoQuadRegisters::LOCALIZER_YAW_AXIS),
            0x0Du8 => Some(OctoQuadRegisters::LOCALIZER_STATUS),
            0x0Eu8 => Some(OctoQuadRegisters::LOCALIZER_VX),
            0x10u8 => Some(OctoQuadRegisters::LOCALIZER_VY),
            0x12u8 => Some(OctoQuadRegisters::LOCALIZER_VH),
            0x14u8 => Some(OctoQuadRegisters::LOCALIZER_X),
            0x16u8 => Some(OctoQuadRegisters::LOCALIZER_Y),
            0x18u8 => Some(OctoQuadRegisters::LOCALIZER_H),
            0x1Au8 => Some(OctoQuadRegisters::LOCALIZER_CRC16),
            0x1Cu8 => Some(OctoQuadRegisters::ENCODER_0_POSITION),
            0x20u8 => Some(OctoQuadRegisters::ENCODER_1_POSITION),
            0x24u8 => Some(OctoQuadRegisters::ENCODER_2_POSITION),
            0x28u8 => Some(OctoQuadRegisters::ENCODER_3_POSITION),
            0x2Cu8 => Some(OctoQuadRegisters::ENCODER_4_POSITION),
            0x30u8 => Some(OctoQuadRegisters::ENCODER_5_POSITION),
            0x34u8 => Some(OctoQuadRegisters::ENCODER_6_POSITION),
            0x38u8 => Some(OctoQuadRegisters::ENCODER_7_POSITION),
            0x3Cu8 => Some(OctoQuadRegisters::ENCODER_0_VELOCITY),
            0x3Eu8 => Some(OctoQuadRegisters::ENCODER_1_VELOCITY),
            0x40u8 => Some(OctoQuadRegisters::ENCODER_2_VELOCITY),
            0x42u8 => Some(OctoQuadRegisters::ENCODER_3_VELOCITY),
            0x44u8 => Some(OctoQuadRegisters::ENCODER_4_VELOCITY),
            0x46u8 => Some(OctoQuadRegisters::ENCODER_5_VELOCITY),
            0x48u8 => Some(OctoQuadRegisters::ENCODER_6_VELOCITY),
            0x4Au8 => Some(OctoQuadRegisters::ENCODER_7_VELOCITY),
            0x4Cu8 => Some(OctoQuadRegisters::ENCODER_DATA_CRC16),
            0x4Eu8 => Some(OctoQuadRegisters::UNKNOWN),
            _ => None,
        }
    }

    /// The register address.
    pub fn addr(&self) -> (r: u8)
        ensures
            r == self.spec_addr(),
    {
        match self {
            OctoQuadRegisters::CHIP_ID => 0x00u8,
            OctoQuadRegisters::FIRMWARE_VERSION_MAJOR => 0x01u8,
            OctoQuadRegisters::FIRMWARE_VERSION_MINOR => 0x02u8,
            OctoQuadRegisters::FIRMWARE_VERSION_ENGINEERING => 0x03u8,
            OctoQuadRegisters::COMMAND => 0x04u8,
            OctoQuadRegisters::COMMAND_DAT_0 => 0x05u8,
            OctoQuadRegisters::COMMAND_DAT_1 => 0x06u8,
            OctoQuadRegisters::COMMAND_DAT_2 => 0x07u8,
            OctoQuadRegisters::COMMAND_DAT_3 => 0x08u8,
            OctoQuadRegisters::COMMAND_DAT_4 => 0x09u8,
            OctoQuadRegisters::COMMAND_DAT_5 => 0x0Au8,
            OctoQuadRegisters::COMMAND_DAT_6 => 0x0Bu8,
            OctoQuadRegisters::LOCALIZER_YAW_AXIS => 0x0Cu8,
            OctoQuadRegisters::LOCALIZER_STATUS => 0x0Du8,
            OctoQuadRegisters::LOCALIZER_VX => 0x0Eu8,
            OctoQuadRegisters::LOCALIZER_VY => 0x10u8,
            OctoQuadRegisters::LOCALIZER_VH => 0x12u8,
            OctoQuadRegisters::LOCALIZER_X => 0x14u8,
            OctoQuadRegisters::LOCALIZER_Y => 0x16u8,
            OctoQuadRegisters::LOCALIZER_H => 0x18u8,
            OctoQuadRegisters::LOCALIZER_CRC16 => 0x1Au8,
            OctoQuadRegisters::ENCODER_0_POSITION => 0x1Cu8,
            OctoQuadRegisters::ENCODER_1_POSITION => 0x20u8,
            OctoQuadRegisters::ENCODER_2_POSITION => 0x24u8,
            OctoQuadRegisters::ENCODER_3_POSITION => 0x28u8,
            OctoQuadRegisters::ENCODER_4_POSITION => 0x2Cu8,
            OctoQuadRegisters::ENCODER_5_POSITION => 0x30u8,
            OctoQuadRegisters::ENCODER_6_POSITION => 0x34u8,
            OctoQuadRegisters::ENCODER_7_POSITION => 0x38u8,
            OctoQuadRegisters::ENCODER_0_VELOCITY => 0x3Cu8,
            OctoQuadRegisters::ENCODER_1_VELOCITY => 0x3Eu8,
            OctoQuadRegisters::ENCODER_2_VELOCITY => 0x40u8,
            OctoQuadRegisters::ENCODER_3_VELOCITY => 0x42u8,
            OctoQuadRegisters::ENCODER_4_VELOCITY => 0x44u8,
            OctoQuadRegisters::ENCODER_5_VELOCITY => 0x46u8,
            OctoQuadRegisters::ENCODER_6_VELOCITY => 0x48u8,
            OctoQuadRegisters::ENCODER_7_VELOCITY => 0x4Au8,
            OctoQuadRegisters::ENCODER_DATA_CRC16 => 0x4Cu8,
            OctoQuadRegisters::UNKNOWN => 0x4Eu8,
        }
    }

    /// The register with address `a`, if any.
    pub fn try_from_u8(a: u8) -> (r: Option<OctoQuadRegisters>)
        ensures
            r == Self::spec_from_addr(a),
    {
        match a {
            0x00u8 => Some(OctoQuadRegisters::CHIP_ID),
            0x01u8 => Some(OctoQuadRegisters::FIRMWARE_VERSION_MAJOR),
            0x02u8 => Some(OctoQuadRegisters::FIRMWARE_VERSION_MINOR),
            0x03u8 => Some(OctoQuadRegisters::FIRMWARE_VERSION_ENGINEERING),
            0x04u8 => Some(OctoQuadRegisters::COMMAND),
            0x05u8 => Some(OctoQuadRegisters::COMMAND_DAT_0),
            0x06u8 => Some(OctoQuadRegisters::COMMAND_DAT_1),
            0x07u8 => Some(OctoQuadRegisters::COMMAND_DAT_2),
            0x08u8 => Some(OctoQuadRegisters::COMMAND_DAT_3),
            0x09u8 => Some(OctoQuadRegisters::COMMAND_DAT_4),
            0x0Au8 => Some(OctoQuadRegisters::COMMAND_DAT_5),
            0x0Bu8 => Some(OctoQuadRegisters::COMMAND_DAT_6),
            0x0Cu8 => Some(OctoQuadRegisters::LOCALIZER_YAW_AXIS),
            0x0Du8 => Some(OctoQuadRegisters::LOCALIZER_STATUS),
            0x0Eu8 => Some(OctoQuadRegisters::LOCALIZER_VX),
            0x10u8 => Some(OctoQuadRegisters::LOCALIZER_VY),
            0x12u8 => Some(OctoQuadRegisters::LOCALIZER_VH),
            0x14u8 => Some(OctoQuadRegisters::LOCALIZER_X),
            0x16u8 => Some(OctoQuadRegisters::LOCALIZER_Y),
            0x18u8 => Some(OctoQuadRegisters::LOCALIZER_H),
            0x1Au8 => Some(OctoQuadRegisters::LOCALIZER_CRC16),
            0x1Cu8 => Some(OctoQuadRegisters::ENCODER_0_POSITION),
            0x20u8 => Some(OctoQuadRegisters::ENCODER_1_POSITION),
            0x24u8 => Some(OctoQuadRegisters::ENCODER_2_POSITION),
            0x28u8 => Some(OctoQuadRegisters::ENCODER_3_POSITION),
            0x2Cu8 => Some(OctoQuadRegisters::ENCODER_4_POSITION),
            0x30u8 => Some(OctoQuadRegisters::ENCODER_5_POSITION),
            0x34u8 => Some(OctoQuadRegisters::ENCODER_6_POSITION),
            0x38u8 => Some(OctoQuadRegisters::ENCODER_7_POSITION),
            0x3Cu8 => Some(OctoQuadRegisters::ENCODER_0_VELOCITY),
            0x3Eu8 => Some(OctoQuadRegisters::ENCODER_1_VELOCITY),
            0x40u8 => Some(OctoQuadRegisters::ENCODER_2_VELOCITY),
            0x42u8 => Some(OctoQuadRegisters::ENCODER_3_VELOCITY),
            0x44u8 => Some(OctoQuadRegisters::ENCODER_4_VELOCITY),
            0x46u8 => Some(OctoQuadRegisters::ENCODER_5_VELOCITY),
            0x48u8 => Some(OctoQuadRegisters::ENCODER_6_VELOCITY),
            0x4Au8 => Some(OctoQuadRegisters::ENCODER_7_VELOCITY),
            0x4Cu8 => Some(OctoQuadRegisters::ENCODER_DATA_CRC16),
            0x4Eu8 => Some(OctoQuadRegisters::UNKNOWN),
            _ => None,
        }
    }

    /// The width of the register in bytes: the distance to the next register. Defined for every
    /// register that has a next one.
    pub fn get_len(&self) -> (r: u8)
        requires
            self.spec_next() is Some,
        ensures
            r == self.spec_next().unwrap().spec_addr() - self.spec_addr(),
    {
        proof {
            lemma_addr_order(*self);
        }
        let mut it = OctoQuadRegisters::CHIP_ID;
        loop
            invariant
                it.spec_addr() <= self.spec_addr(),
                self.spec_next() is Some,
            decreases self.spec_addr() - it.spec_addr(),
        {
            proof {
                lemma_addr_order(it);
                lemma_addr_order(*self);
            }
            if it.addr() == OctoQuadRegisters::UNKNOWN.addr() {
                return 0;
            }
            if it.addr() == self.addr() {
                let next = it.next().unwrap();
                return next.addr() - it.addr();
            }
            proof {
                lemma_between(it, *self);
            }
            it = it.next().unwrap();
        }
    }

    /// The register that follows in address order; none after the last one.
    pub fn next(&self) -> (r: Option<OctoQuadRegisters>)
        ensures
            r == self.spec_next(),
    {
        match self {
            OctoQuadRegisters::CHIP_ID => Some(OctoQuadRegisters::FIRMWARE_VERSION_MAJOR),
            OctoQuadRegisters::FIRMWARE_VERSION_MAJOR => Some(OctoQuadRegisters::FIRMWARE_VERSION_MINOR),
            OctoQuadRegisters::FIRMWARE_VERSION_MINOR => Some(OctoQuadRegisters::FIRMWARE_VERSION_ENGINEERING),
            OctoQuadRegisters::FIRMWARE_VERSION_ENGINEERING => Some(OctoQuadRegisters::COMMAND),
            OctoQuadRegisters::COMMAND => Some(OctoQuadRegisters::COMMAND_DAT_0),
            OctoQuadRegisters::COMMAND_DAT_0 => Some(OctoQuadRegisters::COMMAND_DAT_1),
            OctoQuadRegisters::COMMAND_DAT_1 => Some(OctoQuadRegisters::COMMAND_DAT_2),
            OctoQuadRegisters::COMMAND_DAT_2 => Some(OctoQuadRegisters::COMMAND_DAT_3),
            OctoQuadRegisters::COMMAND_DAT_3 => Some(OctoQuadRegisters::COMMAND_DAT_4),
            OctoQuadRegisters::COMMAND_DAT_4 => Some(OctoQuadRegisters::COMMAND_DAT_5),
            OctoQuadRegisters::COMMAND_DAT_5 => Some(OctoQuadRegisters::COMMAND_DAT_6),
            OctoQuadRegisters::COMMAND_DAT_6 => Some(OctoQuadRegisters::LOCALIZER_YAW_AXIS),
            OctoQuadRegisters::LOCALIZER_YAW_AXIS => Some(OctoQuadRegisters::LOCALIZER_STATUS),
            OctoQuadRegisters::LOCALIZER_STATUS => Some(OctoQuadRegisters::LOCALIZER_VX),
            OctoQuadRegisters::LOCALIZER_VX => Some(OctoQuadRegisters::LOCALIZER_VY),
            OctoQuadRegisters::LOCALIZER_VY => Some(OctoQuadRegisters::LOCALIZER_VH),
            OctoQuadRegisters::LOCALIZER_VH => Some(OctoQuadRegisters::LOCALIZER_X),
            OctoQuadRegisters::LOCALIZER_X => Some(OctoQuadRegisters::LOCALIZER_Y),
            OctoQuadRegisters::LOCALIZER_Y => Some(OctoQuadRegisters::LOCALIZER_H),
            OctoQuadRegisters::LOCALIZER_H => Some(OctoQuadRegisters::LOCALIZER_CRC16),
            OctoQuadRegisters::LOCALIZER_CRC16 => Some(OctoQuadRegisters::ENCODER_0_POSITION),
            OctoQuadRegisters::ENCODER_0_POSITION => Some(OctoQuadRegisters::ENCODER_1_POSITION),
            OctoQuadRegisters::ENCODER_1_POSITION => Some(OctoQuadRegisters::ENCODER_2_POSITION),
            OctoQuadRegisters::ENCODER_2_POSITION => Some(OctoQuadRegisters::ENCODER_3_POSITION),
            OctoQuadRegisters::ENCODER_3_POSITION => Some(OctoQuadRegisters::ENCODER_4_POSITION),
            OctoQuadRegisters::ENCODER_4_POSITION => Some(OctoQuadRegisters::ENCODER_5_POSITION),
            OctoQuadRegisters::ENCODER_5_POSITION => Some(OctoQuadRegisters::ENCODER_6_POSITION),
            OctoQuadRegisters::ENCODER_6_POSITION => Some(OctoQuadRegisters::ENCODER_7_POSITION),
            OctoQuadRegisters::ENCODER_7_POSITION => Some(OctoQuadRegisters::ENCODER_0_VELOCITY),
            OctoQuadRegisters::ENCODER_0_VELOCITY => Some(OctoQuadRegisters::ENCODER_1_VELOCITY),
            OctoQuadRegisters::ENCODER_1_VELOCITY => Some(OctoQuadRegisters::ENCODER_2_VELOCITY),
            OctoQuadRegisters::ENCODER_2_VELOCITY => Some(OctoQuadRegisters::ENCODER_3_VELOCITY),
            OctoQuadRegisters::ENCODER_3_VELOCITY => Some(OctoQuadRegisters::ENCODER_4_VELOCITY),
            OctoQuadRegisters::ENCODER_4_VELOCITY => Some(OctoQuadRegisters::ENCODER_5_VELOCITY),
            OctoQuadRegisters::ENCODER_5_VELOCITY => Some(OctoQuadRegisters::ENCODER_6_VELOCITY),
            OctoQuadRegisters::ENCODER_6_VELOCITY => Some(OctoQuadRegisters::ENCODER_7_VELOCITY),
            OctoQuadRegisters::ENCODER_7_VELOCITY => Some(OctoQuadRegisters::ENCODER_DATA_CRC16),
            _ => None,
        }
    }
}

/// The register map of the device: each register's address.
pub proof fn lemma_register_map(x: OctoQuadRegisters)
    ensures
        x.spec_addr() == match x {
            OctoQuadRegisters::CHIP_ID => 0x00u8,
            OctoQuadRegisters::FIRMWARE_VERSION_MAJOR => 0x01u8,
            OctoQuadRegisters::FIRMWARE_VERSION_MINOR => 0x02u8,
            OctoQuadRegisters::FIRMWARE_VERSION_ENGINEERING => 0x03u8,
            OctoQuadRegisters::COMMAND => 0x04u8,
            OctoQuadRegisters::COMMAND_DAT_0 => 0x05u8,
            OctoQuadRegisters::COMMAND_DAT_1 => 0x06u8,
            OctoQuadRegisters::COMMAND_DAT_2 => 0x07u8,
            OctoQuadRegisters::COMMAND_DAT_3 => 0x08u8,
            OctoQuadRegisters::COMMAND_DAT_4 => 0x09u8,
            OctoQuadRegisters::COMMAND_DAT_5 => 0x0Au8,
            OctoQuadRegisters::COMMAND_DAT_6 => 0x0Bu8,
            OctoQuadRegisters::LOCALIZER_YAW_AXIS => 0x0Cu8,
            OctoQuadRegisters::LOCALIZER_STATUS => 0x0Du8,
            OctoQuadRegisters::LOCALIZER_VX => 0x0Eu8,
            OctoQuadRegisters::LOCALIZER_VY => 0x10u8,
            OctoQuadRegisters::LOCALIZER_VH => 0x12u8,
            OctoQuadRegisters::LOCALIZER_X => 0x14u8,
            OctoQuadRegisters::LOCALIZER_Y => 0x16u8,
            OctoQuadRegisters::LOCALIZER_H => 0x18u8,
            OctoQuadRegisters::LOCALIZER_CRC16 => 0x1Au8,
            OctoQuadRegisters::ENCODER_0_POSITION => 0x1Cu8,
            OctoQuadRegisters::ENCODER_1_POSITION => 0x20u8,
            OctoQuadRegisters::ENCODER_2_POSITION => 0x24u8,
            OctoQuadRegisters::ENCODER_3_POSITION => 0x28u8,
            OctoQuadRegisters::ENCODER_4_POSITION => 0x2Cu8,
            OctoQuadRegisters::ENCODER_5_POSITION => 0x30u8,
            OctoQuadRegisters::ENCODER_6_POSITION => 0x34u8,
            OctoQuadRegisters::ENCODER_7_POSITION => 0x38u8,
            OctoQuadRegisters::ENCODER_0_VELOCITY => 0x3Cu8,
            OctoQuadRegisters::ENCODER_1_VELOCITY => 0x3Eu8,
            OctoQuadRegisters::ENCODER_2_VELOCITY => 0x40u8,
            OctoQuadRegisters::ENCODER_3_VELOCITY => 0x42u8,
            OctoQuadRegisters::ENCODER_4_VELOCITY => 0x44u8,
            OctoQuadRegisters::ENCODER_5_VELOCITY => 0x46u8,
            OctoQuadRegisters::ENCODER_6_VELOCITY => 0x48u8,
            OctoQuadRegisters::ENCODER_7_VELOCITY => 0x4Au8,
            OctoQuadRegisters::ENCODER_DATA_CRC16 => 0x4Cu8,
            OctoQuadRegisters::UNKNOWN => 0x4Eu8,
        },
{
}

/// Addresses tell registers apart; a register with a next one is below it, and every register
/// but the last two has a next one.
pub proof fn lemma_addr_order(x: OctoQuadRegisters)
    ensures
        OctoQuadRegisters::spec_from_addr(x.spec_addr()) == Some(x),
        x.spec_next() matches Some(n) ==> n.spec_addr() > x.spec_addr(),
        x.spec_next() is None <==> (x == OctoQuadRegisters::ENCODER_DATA_CRC16 || x
            == OctoQuadRegisters::UNKNOWN),
        x.spec_addr() <= 0x4E,
{
}

/// No register lies strictly between a register and the next one, and every register below
/// another known register has a next one.
pub proof fn lemma_between(x: OctoQuadRegisters, y: OctoQuadRegisters)
    requires
        x.spec_addr() < y.spec_addr(),
        y != OctoQuadRegisters::UNKNOWN,
    ensures
        x.spec_next() matches Some(n) && n.spec_addr() <= y.spec_addr(),
{
    lemma_addr_order(y);
    match x {
        OctoQuadRegisters::CHIP_ID => {},
        OctoQuadRegisters::FIRMWARE_VERSION_MAJOR => {},
        OctoQuadRegisters::FIRMWARE_VERSION_MINOR => {},
        OctoQuadRegisters::FIRMWARE_VERSION_ENGINEERING => {},
        OctoQuadRegisters::COMMAND => {},
        OctoQuadRegisters::COMMAND_DAT_0 => {},
        OctoQuadRegisters::COMMAND_DAT_1 => {},
        OctoQuadRegisters::COMMAND_DAT_2 => {},
        OctoQuadRegisters::COMMAND_DAT_3 => {},
        OctoQuadRegisters::COMMAND_DAT_4 => {},
        OctoQuadRegisters::COMMAND_DAT_5 => {},
        OctoQuadRegisters::COMMAND_DAT_6 => {},
        OctoQuadRegisters::LOCALIZER_YAW_AXIS => {},
        OctoQuadRegisters::LOCALIZER_STATUS => {},
        OctoQuadRegisters::LOCALIZER_VX => {},
        OctoQuadRegisters::LOCALIZER_VY => {},
        OctoQuadRegisters::LOCALIZER_VH => {},
        OctoQuadRegisters::LOCALIZER_X => {},
        OctoQuadRegisters::LOCALIZER_Y => {},
        OctoQuadRegisters::LOCALIZER_H => {},
        OctoQuadRegisters::LOCALIZER_CRC16 => {},
        OctoQuadRegisters::ENCODER_0_POSITION => {},
        OctoQuadRegisters::ENCODER_1_POSITION => {},
        OctoQuadRegisters::ENCODER_2_POSITION => {},
        OctoQuadRegisters::ENCODER_3_POSITION => {},
        OctoQuadRegisters::ENCODER_4_POSITION => {},
        OctoQuadRegisters::ENCODER_5_POSITION => {},
        OctoQuadRegisters::ENCODER_6_POSITION => {},
        OctoQuadRegisters::ENCODER_7_POSITION => {},
        OctoQuadRegisters::ENCODER_0_VELOCITY => {},
        OctoQuadRegisters::ENCODER_1_VELOCITY => {},
        OctoQuadRegisters::ENCODER_2_VELOCITY => {},
        OctoQuadRegisters::ENCODER_3_VELOCITY => {},
        OctoQuadRegisters::ENCODER_4_VELOCITY => {},
        OctoQuadRegisters::ENCODER_5_VELOCITY => {},
        OctoQuadRegisters::ENCODER_6_VELOCITY => {},
        OctoQuadRegisters::ENCODER_7_VELOCITY => {},
        OctoQuadRegisters::ENCODER_DATA_CRC16 => {},
        OctoQuadRegisters::UNKNOWN => {},
    }
}

/// How a register is read.
#[derive(Debug, Copy, Clone, PartialEq, Eq, Structural)]
pub enum RegisterType {
    UInt8,
    Int32,
    Int16,
    UInt16,
    Float32,
}

impl RegisterType {
    /// The width in bytes.
    pub fn get_len(&self) -> (r: u8)
        ensures
            r == match *self {
                RegisterType::UInt8 => 1u8,
                RegisterType::Int32 => 4u8,
                RegisterType::Int16 => 2u8,
                RegisterType::UInt16 => 2u8,
                RegisterType::Float32 => 4u8,
            },
    {
        match self {
            RegisterType::UInt8 => 1,
            RegisterType::Int32 => 4,
            RegisterType::Int16 => 2,
            RegisterType::UInt16 => 2,
            RegisterType::Float32 => 4,
        }
    }
}

/// Which groups of registers a bulk read covers: bit 0 the localizer, bit 1 the encoder
/// positions, bit 2 the encoder velocities.
#[derive(Debug, Copy, Clone, PartialEq, Eq, Structural)]
pub struct ReadMode(pub u8);

/// The localizer group.
pub const LOCALIZER: u8 = 0b0000_0001u8;
/// The encoder position group.
pub const POSITIONS: u8 = 0b0000_0010u8;
/// The encoder velocity group.
pub const VELOCITY: u8 = 0b0000_0100u8;

/// Whether the flags `a` include all of the flags `b`.
pub open spec fn spec_contains(a: u8, b: u8) -> bool {
    a & b == b
}

/// For a mode of three bits, which groups it includes, by its number.
pub proof fn lemma_mode_bits(m: u8)
    requires
        m < 8,
    ensures
        spec_contains(m, LOCALIZER) <==> m % 2 == 1,
        spec_contains(m, POSITIONS) <==> (m / 2) % 2 == 1,
        spec_contains(m, VELOCITY) <==> m >= 4,
        m & 7 == m,
{
    assert(m < 8 ==> ((m & 1u8 == 1u8) <==> m % 2 == 1) && ((m & 2u8 == 2u8) <==> (m / 2) % 2 == 1)
        && ((m & 4u8 == 4u8) <==> m >= 4) && m & 7u8 == m) by (bit_vector);
}

impl ReadMode {
    /// The flags.
    pub fn bits(&self) -> (r: u8)
        ensures
            r == self.0,
    {
        self.0
    }

    /// The mode with the known flags of `b`; other bits are dropped.
    pub fn from_bits_truncate(b: u8) -> (r: ReadMode)
        ensures
            r.0 == b & 7u8,
    {
        ReadMode(b & 7u8)
    }

    /// Whether the mode includes every flag of `other`.
    pub fn contains(&self, other: ReadMode) -> (r: bool)
        ensures
            r == spec_contains(self.0, other.0),
    {
        (self.0 & other.0) == other.0
    }

    /// A mode reads something, and not the localizer and velocities alone (the positions lie
    /// between them).
    pub open spec fn spec_valid(self) -> bool {
        self.0 != 0 && self.0 != (LOCALIZER | VELOCITY)
    }

    /// Whether the mode can be read in one contiguous bulk read.
    pub fn valid(&self) -> (r: bool)
        ensures
            r == self.spec_valid(),
    {
        if self.bits() == 0 {
            return false;
        }
        if self.bits() == (LOCALIZER | VELOCITY) {
            return false;
        }
        true
    }
}

/// The lowest and highest address of each register group.
pub open spec fn group_span(g: u8) -> (u8, u8) {
    if g == LOCALIZER {
        (0x0Du8, 0x1Au8)
    } else if g == POSITIONS {
        (0x1Cu8, 0x38u8)
    } else {
        (0x3Cu8, 0x4Au8)
    }
}

/// The first and last register a read in mode `rm` spans: from the lowest start to the highest
/// end of the groups it includes; (unknown, chip id) when it includes none.
pub open spec fn spec_span(rm: u8) -> (OctoQuadRegisters, OctoQuadRegisters) {
    let start = if spec_contains(rm, LOCALIZER) {
        OctoQuadRegisters::LOCALIZER_STATUS
    } else if spec_contains(rm, POSITIONS) {
        OctoQuadRegisters::ENCODER_0_POSITION
    } else if spec_contains(rm, VELOCITY) {
        OctoQuadRegisters::ENCODER_0_VELOCITY
    } else {
        OctoQuadRegisters::UNKNOWN
    };
    let end = if spec_contains(rm, VELOCITY) {
        OctoQuadRegisters::ENCODER_7_VELOCITY
    } else if spec_contains(rm, POSITIONS) {
        OctoQuadRegisters::ENCODER_7_POSITION
    } else if spec_contains(rm, LOCALIZER) {
        OctoQuadRegisters::LOCALIZER_CRC16
    } else {
        OctoQuadRegisters::CHIP_ID
    };
    (start, end)
}

impl OctoQuadRegisters {
    /// Keeps the register with the lower address.
    pub fn min(&mut self, other: OctoQuadRegisters)
        ensures
            *final(self) == if other.spec_addr() < old(self).spec_addr() {
                other
            } else {
                *old(self)
            },
    {
        if other.addr() < self.addr() {
            *self = other;
        }
    }

    /// Keeps the register with the higher address.
    pub fn max(&mut self, other: OctoQuadRegisters)
        ensures
            *final(self) == if other.spec_addr() > old(self).spec_addr() {
                other
            } else {
                *old(self)
            },
    {
        if other.addr() > self.addr() {
            *self = other;
        }
    }

    /// The first and last register a bulk read in mode `rm` has to cover.
    pub fn get_from_readmode(rm: ReadMode) -> (r: (OctoQuadRegisters, OctoQuadRegisters))
        ensures
            r == spec_span(rm.0),
    {
        let mut start = OctoQuadRegisters::UNKNOWN;
        let mut end = OctoQuadRegisters::CHIP_ID;
        if rm.contains(ReadMode(LOCALIZER)) {
            start.min(OctoQuadRegisters::LOCALIZER_STATUS);
            end.max(OctoQuadRegisters::LOCALIZER_CRC16);
        }
        if rm.contains(ReadMode(POSITIONS)) {
            start.min(OctoQuadRegisters::ENCODER_0_POSITION);
            end.max(OctoQuadRegisters::ENCODER_7_POSITION);
        }
        if rm.contains(ReadMode(VELOCITY)) {
            start.min(OctoQuadRegisters::ENCODER_0_VELOCITY);
            end.max(OctoQuadRegisters::ENCODER_7_VELOCITY);
        }
        (start, end)
    }
}

/// A mode of three flags is valid exactly when it reads something and the span of its bulk
/// read covers only groups it includes: a group lies inside the span iff the mode includes it.
pub proof fn lemma_valid_modes_are_contiguous(m: u8)
    requires
        m < 8,
    ensures
        ReadMode(m).spec_valid() <==> (m != 0 && forall|g: u8|
            (g == LOCALIZER || g == POSITIONS || g == VELOCITY) ==> (spec_contains(m, g) <==> (
            spec_span(m).0.spec_addr() <= (#[trigger] group_span(g)).0 && group_span(g).1
                <= spec_span(m).1.spec_addr()))),
{
    lemma_mode_bits(m);
    assert((LOCALIZER | VELOCITY) == 5u8) by (bit_vector);
    if m == 5 {
        assert(!spec_contains(m, POSITIONS));
        assert(spec_span(m).0.spec_addr() <= group_span(POSITIONS).0 && group_span(POSITIONS).1
            <= spec_span(m).1.spec_addr());
    } else if m != 0 {
        assert forall|g: u8| (g == LOCALIZER || g == POSITIONS || g == VELOCITY) implies (
        spec_contains(m, g) <==> (spec_span(m).0.spec_addr() <= (#[trigger] group_span(g)).0
            && group_span(g).1 <= spec_span(m).1.spec_addr())) by {
            lemma_mode_bits(m);
        }
    }
}

/// An OctoQuad board on an I2C bus of a hub.
pub struct OctoQuadI2C {
    pub bus: u8,
    pub i2c_addr: u8,
    pub packets_in_flight: PacketsInFlight,
    pub read_mode: ReadMode,
}

impl OctoQuadI2C {
    /// A board at `i2c_addr` on `bus`, read in `read_mode`, with no request in flight.
    pub fn new(bus: u8, i2c_addr: u8, read_mode: ReadMode) -> (r: OctoQuadI2C)
        ensures
            r.bus == bus,
            r.i2c_addr == i2c_addr,
            r.read_mode == read_mode,
            r.packets_in_flight.ids@.len() == 0,
    {
        OctoQuadI2C { bus, i2c_addr, packets_in_flight: PacketsInFlight::new(), read_mode }
    }

    /// The flags of the read mode.
    pub fn get_read_mode(&self) -> (r: u8)
        ensures
            r == self.read_mode.0,
    {
        self.read_mode.bits()
    }

    /// The bulk read of the localizer registers, status through checksum.
    pub fn get_read_cmd(&self) -> (r: LynxCommand)
        ensures
            r@ == LynxCommandView::LynxI2CWriteReadMultipleBytesCommand(
                LynxI2CWriteReadMultipleBytesCommandData {
                    i2c_bus: self.bus,
                    i2c_addr_7bit: self.i2c_addr,
                    bytes_to_read: 15,
                    i2c_start_addr: 0x0D,
                },
            ),
    {
        self.get_read_cmd_for_registers(
            OctoQuadRegisters::LOCALIZER_STATUS,
            OctoQuadRegisters::LOCALIZER_CRC16,
        )
    }

    /// The bulk read from the start of register `start` through the end of register `end`.
    pub fn get_read_cmd_for_registers(&self, start: OctoQuadRegisters, end: OctoQuadRegisters) -> (r:
        LynxCommand)
        requires
            end.spec_next() is Some,
            start.spec_addr() <= end.spec_next().unwrap().spec_addr(),
        ensures
            r@ == LynxCommandView::LynxI2CWriteReadMultipleBytesCommand(
                LynxI2CWriteReadMultipleBytesCommandData {
                    i2c_bus: self.bus,
                    i2c_addr_7bit: self.i2c_addr,
                    bytes_to_read: (end.spec_next().unwrap().spec_addr() - start.spec_addr()) as u8,
                    i2c_start_addr: start.spec_addr(),
                },
            ),
    {
        proof {
            lemma_addr_order(end);
        }
        let start_addr = start.addr();
        let addr_end = end.addr() + end.get_len();
        let bytes = addr_end - start_addr;
        self.get_read_lynx_command(start_addr, bytes)
    }

    /// The bulk read of `bytes_to_read` bytes from register address `i2c_start_addr`.
    pub fn get_read_lynx_command(&self, i2c_start_addr: u8, bytes_to_read: u8) -> (r: LynxCommand)
        ensures
            r@ == LynxCommandView::LynxI2CWriteReadMultipleBytesCommand(
                LynxI2CWriteReadMultipleBytesCommandData {
                    i2c_bus: self.bus,
                    i2c_addr_7bit: self.i2c_addr,
                    bytes_to_read,
                    i2c_start_addr,
                },
            ),
    {
        LynxCommand::LynxI2CWriteReadMultipleBytesCommand(
            LynxI2CWriteReadMultipleBytesCommandData {
                i2c_bus: self.bus,
                i2c_addr_7bit: self.i2c_addr,
                bytes_to_read,
                i2c_start_addr,
            },
        )
    }
}

/// The encoder positions of a bulk read.
#[derive(Debug, Clone, Copy)]
pub struct EncoderPosSnapshot {
    pub pos: [i32; 8],
}

/// The encoder velocities of a bulk read.
#[derive(Debug, Clone, Copy)]
pub struct EncoderVelSnapshot {
    pub vel: [i16; 8],
}

/// The bytes a bulk read in mode `rm` must hold to be split: the localizer group is read as
/// fifteen bytes but takes thirteen, the positions thirty-two, the velocities sixteen.
pub open spec fn snapshot_len(rm: u8) -> int {
    let m = rm & 7u8;
    let loc: int = if spec_contains(m, LOCALIZER) { 13 } else { 0 };
    let pos: int = if spec_contains(m, POSITIONS) { 32 } else { 0 };
    let vel: int = if spec_contains(m, VELOCITY) { 16 } else { 0 };
    let last: int = if spec_contains(m, VELOCITY) {
        loc + pos + 16
    } else if spec_contains(m, POSITIONS) {
        loc + 32
    } else if spec_contains(m, LOCALIZER) {
        15
    } else {
        0
    };
    if last > loc + pos + vel { last } else { loc + pos + vel }
}

/// The bytes of each group of a bulk read in mode `rm` (unknown bits dropped): the localizer's
/// fifteen bytes from the start, then the positions' thirty-two and the velocities' sixteen, each
/// after the groups before it (the localizer group counts thirteen), each present when the mode
/// includes it.
pub fn split_snapshot(rm: u8, data: &[u8]) -> (r: (Option<Vec<u8>>, Option<Vec<u8>>, Option<Vec<u8>>))
    requires
        data@.len() >= snapshot_len(rm),
    ensures
        ({
            let m = rm & 7u8;
            let loc: int = if spec_contains(m, LOCALIZER) { 13 } else { 0 };
            let pos: int = if spec_contains(m, POSITIONS) { 32 } else { 0 };
            &&& r.0 is Some == spec_contains(m, LOCALIZER)
            &&& r.0 matches Some(v) ==> v@ == data@.subrange(0, 15)
            &&& r.1 is Some == spec_contains(m, POSITIONS)
            &&& r.1 matches Some(v) ==> v@ == data@.subrange(loc, loc + 32)
            &&& r.2 is Some == spec_contains(m, VELOCITY)
            &&& r.2 matches Some(v) ==> v@ == data@.subrange(loc + pos, loc + pos + 16)
        }),
{
    assert(rm & 7u8 < 8u8) by (bit_vector);
    let rm = ReadMode::from_bits_truncate(rm);
    proof {
        lemma_mode_bits(rm.0);
    }
    let mut offset: usize = 0;
    let ld = if rm.contains(ReadMode(LOCALIZER)) {
        let v = crate::wire::copy_range(data, 0, 15);
        offset = 13;
        Some(v)
    } else {
        None
    };
    let pos = if rm.contains(ReadMode(POSITIONS)) {
        let v = crate::wire::copy_range(data, offset, offset + 32);
        offset = offset + 32;
        Some(v)
    } else {
        None
    };
    let vel = if rm.contains(ReadMode(VELOCITY)) {
        Some(crate::wire::copy_range(data, offset, offset + 16))
    } else {
        None
    };
    (ld, pos, vel)
}

/// Calls `bytemuck::try_from_bytes::<[i32; 8]>` and copies the result out: `b` read as eight
/// `i32` in the machine's byte order. Its source fails unless `b` holds exactly 32 bytes and
/// starts at an address aligned for `i32`. Left unsaid: whether the address is aligned, and the
/// values, which depend on the machine's byte order.
#[verifier::external_body]
fn i32x8_from_bytes(b: &[u8]) -> (r: Option<[i32; 8]>)
    ensures
        r is Some ==> b@.len() == 32,
{
    bytemuck::try_from_bytes::<[i32; 8]>(b).ok().copied()
}

/// Calls `bytemuck::try_from_bytes::<[i16; 8]>` and copies the result out: `b` read as eight
/// `i16` in the machine's byte order. Its source fails unless `b` holds exactly 16 bytes and
/// starts at an address aligned for `i16`. Left unsaid: whether the address is aligned, and the
/// values, which depend on the machine's byte order.
#[verifier::external_body]
fn i16x8_from_bytes(b: &[u8]) -> (r: Option<[i16; 8]>)
    ensures
        r is Some ==> b@.len() == 16,
{
    bytemuck::try_from_bytes::<[i16; 8]>(b).ok().copied()
}

/// The groups of a bulk read in mode `rm` (unknown bits dropped): the localizer's fifteen raw
/// bytes, and the encoder positions and velocities cast from the bytes `split_snapshot` gives
/// their groups. Each group is present exactly when the mode includes it; a cast that fails (a
/// group not aligned in memory) is `None` inside it.
pub fn decode_snapshot_groups(rm: u8, data: &[u8]) -> (r: (
    Option<Vec<u8>>,
    Option<Option<EncoderPosSnapshot>>,
    Option<Option<EncoderVelSnapshot>>,
))
    requires
        data@.len() >= snapshot_len(rm),
    ensures
        ({
            let m = rm & 7u8;
            &&& r.0 is Some == spec_contains(m, LOCALIZER)
            &&& r.0 matches Some(v) ==> v@ == data@.subrange(0, 15)
            &&& r.1 is Some == spec_contains(m, POSITIONS)
            &&& r.2 is Some == spec_contains(m, VELOCITY)
        }),
{
    let (ld, pos, vel) = split_snapshot(rm, data);
    let positions = match pos {
        Some(b) => match i32x8_from_bytes(b.as_slice()) {
            Some(a) => Some(Some(EncoderPosSnapshot { pos: a })),
            None => Some(None),
        },
        None => None,
    };
    let velocities = match vel {
        Some(b) => match i16x8_from_bytes(b.as_slice()) {
            Some(a) => Some(Some(EncoderVelSnapshot { vel: a })),
            None => Some(None),
        },
        None => None,
    };
    (ld, positions, velocities)
}

/// Whether `split_snapshot` can split `len` bytes read in mode `rm`.
pub fn can_split_snapshot(rm: u8, len: usize) -> (r: bool)
    ensures
        r == (len >= snapshot_len(rm)),
{
    let m = ReadMode(rm & 7u8);
    let loc: usize = if m.contains(ReadMode(LOCALIZER)) { 13 } else { 0 };
    let pos: usize = if m.contains(ReadMode(POSITIONS)) { 32 } else { 0 };
    let vel: usize = if m.contains(ReadMode(VELOCITY)) { 16 } else { 0 };
    let last: usize = if m.contains(ReadMode(VELOCITY)) {
        loc + pos + 16
    } else if m.contains(ReadMode(POSITIONS)) {
        loc + 32
    } else if m.contains(ReadMode(LOCALIZER)) {
        15
    } else {
        0
    };
    let need = if last > loc + pos + vel { last } else { loc + pos + vel };
    len >= need
}

} // verus!
