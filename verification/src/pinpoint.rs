//! The Pinpoint odometry computer on an I2C bus: its registers, control words and read commands.
use crate::base_lynx_command::{LynxCommand, LynxCommandView};
use crate::hardware::Direction;
use crate::i2c::{fire_read_command, write_data_i, PacketsInFlight, ToLeBytes};
use crate::lynx_commands::{LynxI2CReadStatusQueryCommandData, LynxI2CWriteReadMultipleBytesCommandData};
use crate::wire::{get_i32, le_u32, read_i32};
use vstd::prelude::*;

verus! {

/// The registers of the device.
#[derive(Debug, Copy, Clone, PartialEq, Eq, Structural)]
pub enum PinpointRegister {
    DeviceId,
    DeviceVersion,
    DeviceStatus,
    DeviceControl,
    LoopTime,
    XEncoderValue,
    YEncoderValue,
    XPosition,
    YPosition,
    HOrientation,
    XVelocity,
    YVelocity,
    HVelocity,
    TicksPerMm,
    XPodOffset,
    YPodOffset,
    YawScalar,
    BulkRead,
}

impl PinpointRegister {
    /// The register number.
    pub open spec fn spec_addr(self) -> u8 {
        match self {
            PinpointRegister::DeviceId => 1u8,
            PinpointRegister::DeviceVersion => 2u8,
            PinpointRegister::DeviceStatus => 3u8,
            PinpointRegister::DeviceControl => 4u8,
            PinpointRegister::LoopTime => 5u8,
            PinpointRegister::XEncoderValue => 6u8,
            PinpointRegister::YEncoderValue => 7u8,
            PinpointRegister::XPosition => 8u8,
            PinpointRegister::YPosition => 9u8,
            PinpointRegister::HOrientation => 10u8,
            PinpointRegister::XVelocity => 11u8,
            PinpointRegister::YVelocity => 12u8,
            PinpointRegister::HVelocity => 13u8,
            PinpointRegister::TicksPerMm => 14u8,
            PinpointRegister::XPodOffset => 15u8,
            PinpointRegister::YPodOffset => 16u8,
            PinpointRegister::YawScalar => 17u8,
            PinpointRegister::BulkRead => 18u8,
        }
    }

    /// The register number.
    pub fn addr(&self) -> (r: u8)
        ensures
            r == self.spec_addr(),
    {
        match self {
            PinpointRegister::DeviceId => 1u8,
            PinpointRegister::DeviceVersion => 2u8,
            PinpointRegister::DeviceStatus => 3u8,
            PinpointRegister::DeviceControl => 4u8,
            PinpointRegister::LoopTime => 5u8,
            PinpointRegister::XEncoderValue => 6u8,
            PinpointRegister::YEncoderValue => 7u8,
            PinpointRegister::XPosition => 8u8,
            PinpointRegister::YPosition => 9u8,
            PinpointRegister::HOrientation => 10u8,
            PinpointRegister::XVelocity => 11u8,
            PinpointRegister::YVelocity => 12u8,
            PinpointRegister::HVelocity => 13u8,
            PinpointRegister::TicksPerMm => 14u8,
            PinpointRegister::XPodOffset => 15u8,
            PinpointRegister::YPodOffset => 16u8,
            PinpointRegister::YawScalar => 17u8,
            PinpointRegister::BulkRead => 18u8,
        }
    }

    /// The register with number `b`, if any.
    pub fn try_from_u8(b: u8) -> (r: Option<PinpointRegister>)
        ensures
            r matches Some(x) ==> x.spec_addr() == b,
            r is None <==> (b == 0 || b > 18),
    {
        match b {
            1u8 => Some(PinpointRegister::DeviceId),
            2u8 => Some(PinpointRegister::DeviceVersion),
            3u8 => Some(PinpointRegister::DeviceStatus),
            4u8 => Some(PinpointRegister::DeviceControl),
            5u8 => Some(PinpointRegister::LoopTime),
            6u8 => Some(PinpointRegister::XEncoderValue),
            7u8 => Some(PinpointRegister::YEncoderValue),
            8u8 => Some(PinpointRegister::XPosition),
            9u8 => Some(PinpointRegister::YPosition),
            10u8 => Some(PinpointRegister::HOrientation),
            11u8 => Some(PinpointRegister::XVelocity),
            12u8 => Some(PinpointRegister::YVelocity),
            13u8 => Some(PinpointRegister::HVelocity),
            14u8 => Some(PinpointRegister::TicksPerMm),
            15u8 => Some(PinpointRegister::XPodOffset),
            16u8 => Some(PinpointRegister::YPodOffset),
            17u8 => Some(PinpointRegister::YawScalar),
            18u8 => Some(PinpointRegister::BulkRead),
            _ => None,
        }
    }
}

/// A command word written to the device control register; each is one bit.
#[derive(Debug, Copy, Clone, PartialEq, Eq, Structural)]
pub enum DeviceControl {
    RecalibrateImu,
    ResetPosAndImu,
    SetYEncoderReversed,
    SetYEncoderForward,
    SetXEncoderReversed,
    SetXEncoderForward,
}

impl DeviceControl {
    /// The control word.
    pub open spec fn spec_value(self) -> u32 {
        match self {
            DeviceControl::RecalibrateImu => 1u32,
            DeviceControl::ResetPosAndImu => 2u32,
            DeviceControl::SetYEncoderReversed => 4u32,
            DeviceControl::SetYEncoderForward => 8u32,
            DeviceControl::SetXEncoderReversed => 16u32,
            DeviceControl::SetXEncoderForward => 32u32,
        }
    }

    /// The control word.
    pub fn value(self) -> (r: u32)
        ensures
            r == self.spec_value(),
    {
        match self {
            DeviceControl::RecalibrateImu => 1u32,
            DeviceControl::ResetPosAndImu => 2u32,
            DeviceControl::SetYEncoderReversed => 4u32,
            DeviceControl::SetYEncoderForward => 8u32,
            DeviceControl::SetXEncoderReversed => 16u32,
            DeviceControl::SetXEncoderForward => 32u32,
        }
    }
}

impl ToLeBytes for DeviceControl {
    open spec fn spec_le_bytes(&self) -> Seq<u8> {
        le_u32(self.spec_value())
    }

    fn to_le_bytes_vec(self) -> (r: Vec<u8>) {
        self.value().to_le_bytes_vec()
    }
}

/// Each control word is one bit: recalibrate the IMU bit 0, reset position and IMU bit 1, Y pod
/// reversed bit 2, Y pod forward bit 3, X pod reversed bit 4, X pod forward bit 5. Recalibrating
/// writes 1 and resetting writes 2 to the device control register, as four little-endian bytes.
pub proof fn lemma_control_bits(dc: DeviceControl)
    ensures
        dc.spec_value() == match dc {
            DeviceControl::RecalibrateImu => 1u32 << 0u32,
            DeviceControl::ResetPosAndImu => 1u32 << 1u32,
            DeviceControl::SetYEncoderReversed => 1u32 << 2u32,
            DeviceControl::SetYEncoderForward => 1u32 << 3u32,
            DeviceControl::SetXEncoderReversed => 1u32 << 4u32,
            DeviceControl::SetXEncoderForward => 1u32 << 5u32,
        },
        PinpointRegister::DeviceControl.spec_addr() == 4u8,
        le_u32(1u32) == seq![1u8, 0u8, 0u8, 0u8],
        le_u32(2u32) == seq![2u8, 0u8, 0u8, 0u8],
{
    assert(1u32 << 0u32 == 1u32 && 1u32 << 1u32 == 2u32 && 1u32 << 2u32 == 4u32) by (bit_vector);
    assert(1u32 << 3u32 == 8u32 && 1u32 << 4u32 == 16u32 && 1u32 << 5u32 == 32u32) by (bit_vector);
}

/// One of the two odometry pods.
#[derive(Debug, Copy, Clone, PartialEq, Eq, Structural)]
pub enum Pod {
    X,
    Y,
}

/// The control word that sets the direction of the encoder of `pod`.
pub open spec fn spec_direction_control(pod: Pod, direction: Direction) -> DeviceControl {
    if pod == Pod::X {
        match direction {
            Direction::Forwards => DeviceControl::SetXEncoderForward,
            Direction::Backwards => DeviceControl::SetXEncoderReversed,
        }
    } else {
        match direction {
            Direction::Forwards => DeviceControl::SetYEncoderForward,
            Direction::Backwards => DeviceControl::SetYEncoderReversed,
        }
    }
}

/// The command word that sets a pod's encoder direction names that pod and that direction: the X
/// pod forwards is bit 5, backwards bit 4; the Y pod forwards bit 3, backwards bit 2. It is
/// written to the device control register (4) as four little-endian bytes.
pub proof fn lemma_direction_control_words(pod: Pod, direction: Direction)
    ensures
        seq![4u8] + le_u32(spec_direction_control(pod, direction).spec_value()) == seq![
            4u8,
            if pod == Pod::X {
                if direction == Direction::Forwards { 32u8 } else { 16u8 }
            } else {
                if direction == Direction::Forwards { 8u8 } else { 4u8 }
            },
            0u8,
            0u8,
            0u8,
        ],
{
}

/// A Pinpoint device at an address on an I2C bus of a hub.
pub struct PinpointI2C {
    pub bus: u8,
    pub i2c_addr: u8,
    pub packets_in_flight: PacketsInFlight,
}

impl PinpointI2C {
    /// A device with no request in flight.
    pub fn new(bus: u8, i2c_addr: u8) -> (r: PinpointI2C)
        ensures
            r.bus == bus,
            r.i2c_addr == i2c_addr,
            r.packets_in_flight.ids@.len() == 0,
    {
        PinpointI2C { bus, i2c_addr, packets_in_flight: PacketsInFlight::new() }
    }

    /// The command that writes `data` to `register`.
    pub fn write_data(&self, register: u8, data: &[u8]) -> (r: LynxCommand)
        ensures
            data@.len() == 1 ==> r@ == LynxCommandView::LynxI2CSingleByteWriteCommand(
                crate::lynx_commands::LynxI2CSingleByteWriteCommandData {
                    i2c_bus: self.bus,
                    i2c_addr_7bit: self.i2c_addr,
                    value: register,
                },
            ),
            data@.len() != 1 ==> r@ == LynxCommandView::LynxI2cWriteMultipleBytesCommand(
                (self.bus, self.i2c_addr, seq![register] + data@),
            ),
    {
        write_data_i(self.bus, self.i2c_addr, register, data)
    }

    /// The command that writes a control word to the device control register.
    pub fn write_control(&self, dc: DeviceControl) -> (r: LynxCommand)
        ensures
            r@ == LynxCommandView::LynxI2cWriteMultipleBytesCommand(
                (self.bus, self.i2c_addr, seq![4u8] + le_u32(dc.spec_value())),
            ),
    {
        let bytes = dc.to_le_bytes_vec();
        self.write_data(PinpointRegister::DeviceControl.addr(), bytes.as_slice())
    }

    /// The command that asks the device to recalibrate its IMU.
    pub fn recalibrate_imu(&self) -> (r: LynxCommand)
        ensures
            r@ == LynxCommandView::LynxI2cWriteMultipleBytesCommand(
                (self.bus, self.i2c_addr, seq![4u8] + le_u32(1u32)),
            ),
    {
        self.write_control(DeviceControl::RecalibrateImu)
    }

    /// The command that resets the position and the IMU.
    pub fn reset_pos_and_imu(&self) -> (r: LynxCommand)
        ensures
            r@ == LynxCommandView::LynxI2cWriteMultipleBytesCommand(
                (self.bus, self.i2c_addr, seq![4u8] + le_u32(2u32)),
            ),
    {
        self.write_control(DeviceControl::ResetPosAndImu)
    }

    /// The command that sets the direction of the encoder of `pod`.
    pub fn set_encoder_direction(&self, pod: Pod, direction: Direction) -> (r: LynxCommand)
        ensures
            r@ == LynxCommandView::LynxI2cWriteMultipleBytesCommand(
                (self.bus, self.i2c_addr, seq![4u8] + le_u32(spec_direction_control(pod, direction).spec_value())),
            ),
    {
        let dc = if pod == Pod::X {
            match direction {
                Direction::Forwards => DeviceControl::SetXEncoderForward,
                Direction::Backwards => DeviceControl::SetXEncoderReversed,
            }
        } else {
            match direction {
                Direction::Forwards => DeviceControl::SetYEncoderForward,
                Direction::Backwards => DeviceControl::SetYEncoderReversed,
            }
        };
        self.write_control(dc)
    }

    /// The bulk read of the forty bytes from the bulk read register on.
    pub fn fire_bulk_read_request(&self) -> (r: LynxCommand)
        ensures
            r@ == LynxCommandView::LynxI2CWriteReadMultipleBytesCommand(
                LynxI2CWriteReadMultipleBytesCommandData {
                    i2c_bus: self.bus,
                    i2c_addr_7bit: self.i2c_addr,
                    bytes_to_read: 40,
                    i2c_start_addr: 18,
                },
            ),
    {
        LynxCommand::LynxI2CWriteReadMultipleBytesCommand(
            LynxI2CWriteReadMultipleBytesCommandData {
                i2c_bus: self.bus,
                i2c_addr_7bit: self.i2c_addr,
                bytes_to_read: 40,
                i2c_start_addr: 18,
            },
        )
    }

    /// The command that asks for the result of the last read.
    pub fn fire_read(&self) -> (r: LynxCommand)
        ensures
            r@ == LynxCommandView::LynxI2CReadStatusQueryCommand(
                LynxI2CReadStatusQueryCommandData { i2c_bus: self.bus },
            ),
    {
        fire_read_command(self.bus)
    }
}

/// The whole-number fields of a Pinpoint bulk read: the first four little-endian `i32` of it.
#[derive(Debug, Clone, Copy, PartialEq, Eq, Structural)]
pub struct PinpointCounts {
    pub device_status: i32,
    pub loop_time: i32,
    pub x_encoder_position: i32,
    pub y_encoder_position: i32,
}

impl PinpointCounts {
    /// Status, loop time and the two encoder counts, from bytes 0, 4, 8 and 12 of a bulk read.
    pub fn from_bytes(data: &[u8]) -> (r: PinpointCounts)
        requires
            data@.len() >= 16,
        ensures
            r.device_status == get_i32(data@, 0),
            r.loop_time == get_i32(data@, 4),
            r.x_encoder_position == get_i32(data@, 8),
            r.y_encoder_position == get_i32(data@, 12),
    {
        PinpointCounts {
            device_status: read_i32(data, 0),
            loop_time: read_i32(data, 4),
            x_encoder_position: read_i32(data, 8),
            y_encoder_position: read_i32(data, 12),
        }
    }
}

} // verus!
