use blaze_ftc::base_lynx_command::LynxCommand;
use blaze_ftc::command::Command;
use blaze_ftc::command_utils::Module;
use blaze_ftc::commands::{AckData, KeepAliveData, NackData, QueryInterfaceResponseData};
use blaze_ftc::gamepad::{decode_buttons, read_buttons, GamepadButtons};
use blaze_ftc::hardware::Direction;
use blaze_ftc::i2c::{fire_read_command, try_interpret_response, write_data_i, I2CFollowUp, I2CResponse, PacketsInFlight, ToLeBytes};
use blaze_ftc::lynx_commands::LynxI2CReadStatusQueryResponseData;
use blaze_ftc::octoquad::{OctoQuadI2C, OctoQuadRegisters, ReadMode, RegisterType, LOCALIZER, POSITIONS, VELOCITY};
use blaze_ftc::packet::Packet;
use blaze_ftc::pinpoint::{DeviceControl, PinpointI2C, PinpointRegister, Pod};

fn hub(addr: u8) -> Module {
    let window = QueryInterfaceResponseData { command_number_first: 0x1000, number_of_commands: 0x80 };
    Module::from_deka_discovery(addr, &window, true)
}

#[test]
fn single_byte_write_sends_the_register() {
    match write_data_i(1, 0x30, 7, &[99]) {
        LynxCommand::LynxI2CSingleByteWriteCommand(c) => {
            assert_eq!(c.i2c_bus, 1);
            assert_eq!(c.i2c_addr_7bit, 0x30);
            assert_eq!(c.value, 7);
        }
        _ => panic!("wrong command"),
    }
}

#[test]
fn multi_byte_write_prefixes_the_register() {
    match write_data_i(1, 0x30, 7, &[1, 2, 3]) {
        LynxCommand::LynxI2cWriteMultipleBytesCommand(c) => {
            assert_eq!(c.payload, vec![7u8, 1, 2, 3]);
        }
        _ => panic!("wrong command"),
    }
    match write_data_i(1, 0x30, 7, &[]) {
        LynxCommand::LynxI2cWriteMultipleBytesCommand(c) => assert_eq!(c.payload, vec![7u8]),
        _ => panic!("wrong command"),
    }
}

#[test]
fn read_query_command() {
    match fire_read_command(3) {
        LynxCommand::LynxI2CReadStatusQueryCommand(c) => assert_eq!(c.i2c_bus, 3),
        _ => panic!("wrong command"),
    }
}

#[test]
fn packets_in_flight_drop_one_record() {
    let mut pif = PacketsInFlight::new();
    pif.add_pif(4);
    pif.add_pif(5);
    pif.add_pif(4);
    assert!(pif.is_pif(4));
    assert_eq!(pif.ids, vec![5u8, 4]);
    assert!(!pif.is_pif(9));
    assert!(pif.is_pif(4));
    assert!(pif.is_pif(5));
    assert!(pif.ids.is_empty());
}

#[test]
fn awaited_read_gives_data() {
    let module = hub(2);
    let mut pif = PacketsInFlight::new();
    pif.add_pif(8);
    let resp = LynxI2CReadStatusQueryResponseData { i2c_status: 0, data: vec![1, 2, 3] };
    let p = Packet::new_full(LynxCommand::LynxI2CReadStatusQueryResponse(resp).to_command(module), 0, 2, 8, 8);
    match try_interpret_response(&mut pif, p) {
        (I2CResponse::Data(d), I2CFollowUp::Nothing) => assert_eq!(d, vec![1u8, 2, 3]),
        _ => panic!("expected data"),
    }
    assert!(pif.ids.is_empty());
}

#[test]
fn awaited_nack_and_ack_ask_again() {
    let mut pif = PacketsInFlight::new();
    pif.add_pif(8);
    pif.add_pif(9);
    let nack = Packet::new_full(Command::Nack(NackData {}), 0, 2, 8, 8);
    match try_interpret_response(&mut pif, nack) {
        (I2CResponse::Nack(s), f) => {
            assert_eq!(s, "Nack");
            assert_eq!(f, I2CFollowUp::PauseAndReadAgain);
        }
        _ => panic!("expected a nack"),
    }
    let ack = Packet::new_full(Command::Ack(AckData { attention_required: false }), 0, 2, 9, 9);
    match try_interpret_response(&mut pif, ack) {
        (I2CResponse::Nack(s), f) => {
            assert_eq!(s, "");
            assert_eq!(f, I2CFollowUp::ReadAgain);
        }
        _ => panic!("expected an ack"),
    }
}

#[test]
fn other_packets_pass_through() {
    let mut pif = PacketsInFlight::new();
    pif.add_pif(8);
    let k = Packet::new_full(Command::KeepAlive(KeepAliveData {}), 0, 2, 3, 3);
    match try_interpret_response(&mut pif, k) {
        (I2CResponse::Packet(p), I2CFollowUp::Nothing) => assert_eq!(p.reference_number, 3),
        _ => panic!("expected the packet back"),
    }
    assert_eq!(pif.ids, vec![8u8]);
    let k = Packet::new_full(Command::KeepAlive(KeepAliveData {}), 0, 2, 8, 8);
    assert!(matches!(try_interpret_response(&mut pif, k), (I2CResponse::Packet(_), I2CFollowUp::Nothing)));
    assert!(pif.ids.is_empty());
}

#[test]
fn little_endian_register_values() {
    assert_eq!(0x0102u16.to_le_bytes_vec(), vec![2u8, 1]);
    assert_eq!((-2i16).to_le_bytes_vec(), vec![0xFEu8, 0xFF]);
    assert_eq!(0x01020304u32.to_le_bytes_vec(), vec![4u8, 3, 2, 1]);
    assert_eq!((-1i32).to_le_bytes_vec(), vec![0xFFu8; 4]);
    assert_eq!(0x0102030405060708u64.to_le_bytes_vec(), vec![8u8, 7, 6, 5, 4, 3, 2, 1]);
    assert_eq!((-1i64).to_le_bytes_vec(), vec![0xFFu8; 8]);
    assert_eq!(9u8.to_le_bytes_vec(), vec![9u8]);
    assert_eq!((-1i8).to_le_bytes_vec(), vec![0xFFu8]);
}

#[test]
fn octoquad_register_lengths() {
    assert_eq!(OctoQuadRegisters::LOCALIZER_STATUS.addr(), 0x0D);
    assert_eq!(OctoQuadRegisters::LOCALIZER_VX.get_len(), 2);
    assert_eq!(OctoQuadRegisters::LOCALIZER_CRC16.get_len(), 2);
    assert_eq!(OctoQuadRegisters::ENCODER_0_POSITION.get_len(), 4);
    assert_eq!(OctoQuadRegisters::ENCODER_7_VELOCITY.get_len(), 2);
    assert_eq!(OctoQuadRegisters::CHIP_ID.get_len(), 1);
    assert_eq!(OctoQuadRegisters::try_from_u8(0x1C), Some(OctoQuadRegisters::ENCODER_0_POSITION));
    assert_eq!(OctoQuadRegisters::try_from_u8(0x1D), None);
    assert_eq!(RegisterType::Int32.get_len(), 4);
    assert_eq!(RegisterType::UInt8.get_len(), 1);
}

#[test]
fn octoquad_localizer_read_command() {
    let quad = OctoQuadI2C::new(1, 0x30, ReadMode(LOCALIZER));
    match quad.get_read_cmd() {
        LynxCommand::LynxI2CWriteReadMultipleBytesCommand(c) => {
            assert_eq!(c.i2c_bus, 1);
            assert_eq!(c.i2c_addr_7bit, 0x30);
            assert_eq!(c.i2c_start_addr, 0x0D);
            assert_eq!(c.bytes_to_read, 15);
        }
        _ => panic!("wrong command"),
    }
    match quad.get_read_cmd_for_registers(OctoQuadRegisters::ENCODER_0_POSITION, OctoQuadRegisters::ENCODER_7_VELOCITY) {
        LynxCommand::LynxI2CWriteReadMultipleBytesCommand(c) => {
            assert_eq!(c.i2c_start_addr, 0x1C);
            assert_eq!(c.bytes_to_read, 0x4C - 0x1C);
        }
        _ => panic!("wrong command"),
    }
    assert_eq!(quad.get_read_mode(), 1);
}

#[test]
fn octoquad_read_modes() {
    assert!(ReadMode(LOCALIZER).valid());
    assert!(ReadMode(LOCALIZER | POSITIONS).valid());
    assert!(ReadMode(POSITIONS | VELOCITY).valid());
    assert!(!ReadMode(0).valid());
    assert!(!ReadMode(LOCALIZER | VELOCITY).valid());
    assert_eq!(ReadMode::from_bits_truncate(0xFF).bits(), 7);
    assert!(ReadMode(7).contains(ReadMode(VELOCITY)));
    assert!(!ReadMode(3).contains(ReadMode(VELOCITY)));
    assert_eq!(
        OctoQuadRegisters::get_from_readmode(ReadMode(LOCALIZER | POSITIONS)),
        (OctoQuadRegisters::LOCALIZER_STATUS, OctoQuadRegisters::ENCODER_7_POSITION)
    );
    assert_eq!(
        OctoQuadRegisters::get_from_readmode(ReadMode(VELOCITY)),
        (OctoQuadRegisters::ENCODER_0_VELOCITY, OctoQuadRegisters::ENCODER_7_VELOCITY)
    );
    assert_eq!(
        OctoQuadRegisters::get_from_readmode(ReadMode(0)),
        (OctoQuadRegisters::UNKNOWN, OctoQuadRegisters::CHIP_ID)
    );
    let mut r = OctoQuadRegisters::LOCALIZER_X;
    r.min(OctoQuadRegisters::CHIP_ID);
    assert_eq!(r, OctoQuadRegisters::CHIP_ID);
    r.max(OctoQuadRegisters::UNKNOWN);
    assert_eq!(r, OctoQuadRegisters::UNKNOWN);
}

#[test]
fn pinpoint_commands() {
    let pp = PinpointI2C::new(2, 0x31);
    match pp.set_encoder_direction(Pod::X, Direction::Backwards) {
        LynxCommand::LynxI2cWriteMultipleBytesCommand(c) => {
            assert_eq!(c.i2c_bus, 2);
            assert_eq!(c.i2c_addr_7bit, 0x31);
            assert_eq!(c.payload, vec![4u8, 16, 0, 0, 0]);
        }
        _ => panic!("wrong command"),
    }
    match pp.set_encoder_direction(Pod::Y, Direction::Forwards) {
        LynxCommand::LynxI2cWriteMultipleBytesCommand(c) => assert_eq!(c.payload, vec![4u8, 8, 0, 0, 0]),
        _ => panic!("wrong command"),
    }
    match pp.reset_pos_and_imu() {
        LynxCommand::LynxI2cWriteMultipleBytesCommand(c) => assert_eq!(c.payload, vec![4u8, 2, 0, 0, 0]),
        _ => panic!("wrong command"),
    }
    match pp.fire_bulk_read_request() {
        LynxCommand::LynxI2CWriteReadMultipleBytesCommand(c) => {
            assert_eq!(c.bytes_to_read, 40);
            assert_eq!(c.i2c_start_addr, 18);
        }
        _ => panic!("wrong command"),
    }
    assert_eq!(PinpointRegister::BulkRead.addr(), 18);
    assert_eq!(PinpointRegister::try_from_u8(4), Some(PinpointRegister::DeviceControl));
    assert_eq!(DeviceControl::SetXEncoderForward.value(), 32);
}

#[test]
fn gamepad_buttons() {
    let b = decode_buttons(0x20000 | 0x100 | 0x1);
    assert!(b.touchpad_finger_1);
    assert!(b.a);
    assert!(b.right_bumper);
    assert!(!b.b);
    assert_eq!(GamepadButtons::new(), decode_buttons(0));
    let mut report = vec![0u8; 46];
    report[42] = 0x00;
    report[43] = 0x00;
    report[44] = 0x10;
    report[45] = 0x02;
    let b = read_buttons(&report);
    assert!(b.dpad_up);
    assert!(b.left_bumper);
    assert!(!b.a);
}
