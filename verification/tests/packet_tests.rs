use blaze_ftc::base_lynx_command::{LynxCommand, LynxCommandData};
use blaze_ftc::command::{null_term_to_string, Command};
use blaze_ftc::command_data::CommandData;
use blaze_ftc::command_utils::{is_standard_command, Module, ModuleType, StandardCommands};
use blaze_ftc::commands::{AckData, KeepAliveData, NackData, QueryInterfaceData, QueryInterfaceResponseData};
use blaze_ftc::lynx_commands::{
    LynxGetBulkDataResponseData, LynxSetMotorPowerCommandData, MotorData,
};
use blaze_ftc::packet::{bytes_equal, BSChecksum, Packet, FRAME_BYTES};

fn hub(addr: u8) -> Module {
    let window = QueryInterfaceResponseData { command_number_first: 0x1000, number_of_commands: 0x80 };
    Module::from_deka_discovery(addr, &window, true)
}

#[test]
fn keep_alive_packet_bytes() {
    let p = Packet::new(Command::KeepAlive(KeepAliveData {}), 2, 5);
    assert_eq!(p.packet_length, 11);
    assert_eq!(p.packet_id, 0x7F04);
    assert_eq!(p.checksum, 36);
    let bytes = p.to_bytes();
    assert_eq!(bytes, vec![68u8, 75, 11, 0, 2, 0, 5, 0, 4, 127, 36]);
}

#[test]
fn keep_alive_packet_roundtrip() {
    let bytes = vec![68u8, 75, 11, 0, 2, 0, 5, 0, 4, 127, 36];
    assert!(Packet::decodable(&bytes, None, None));
    let p = Packet::from_data(&bytes, None, None).expect("a packet");
    assert_eq!(p.dest_module_addr, 2);
    assert_eq!(p.message_number, 5);
    assert_eq!(p.reference_number, 0);
    assert!(matches!(p.payload_data, Command::KeepAlive(_)));
    assert_eq!(p.to_bytes(), bytes);
}

#[test]
fn bad_checksum_is_rejected() {
    let bytes = vec![68u8, 75, 11, 0, 2, 0, 5, 0, 4, 127, 37];
    assert!(Packet::decodable(&bytes, None, None));
    assert!(Packet::from_data(&bytes, None, None).is_none());
}

#[test]
fn missing_frame_is_rejected() {
    let bytes = vec![0u8, 75, 11, 0, 2, 0, 5, 0, 4, 127, 36];
    assert!(!Packet::is_start(&bytes));
    assert!(Packet::from_data(&bytes, None, None).is_none());
}

#[test]
fn short_length_is_not_decodable() {
    let bytes = vec![68u8, 75, 200, 0, 2, 0, 5, 0, 4, 127, 36];
    assert!(!Packet::decodable(&bytes, None, None));
}

#[test]
fn checksum_is_byte_sum() {
    let c = BSChecksum::new().consume_u8(200).consume_u8(100).into_u8();
    assert_eq!(c, 44);
    let c = BSChecksum::new().consume_u16(0x0102).consume_bytes(&[3, 4]).consume_vec_bytes(vec![5]).into_u8();
    assert_eq!(c, 15);
}

#[test]
fn bytes_equal_compares_contents() {
    assert!(bytes_equal(&[1, 2, 3], &[1, 2, 3]));
    assert!(!bytes_equal(&[1, 2, 3], &[1, 2, 4]));
    assert!(!bytes_equal(&[1, 2], &[1, 2, 3]));
    assert!(bytes_equal(&FRAME_BYTES, &[68, 75]));
}

#[test]
fn checksum_ignores_stored_value() {
    let mut p = Packet::new(Command::KeepAlive(KeepAliveData {}), 2, 5);
    p.checksum = 0;
    assert_eq!(p.checksum(), 36);
}

#[test]
fn motor_power_packet_roundtrip() {
    let module = hub(2);
    let cmd = LynxCommand::LynxSetMotorPowerCommand(LynxSetMotorPowerCommandData { motor: 1, power: 1000 });
    let p = Packet::new(cmd.to_command(module), 2, 7);
    assert_eq!(p.packet_id, 0x100F);
    assert_eq!(p.packet_length, 14);
    let bytes = p.to_bytes();
    assert_eq!(&bytes[10..13], &[1u8, 0xE8, 0x03]);
    let back = Packet::from_data(&bytes, Some(module), None).expect("a packet");
    match back.payload_data {
        Command::LynxCommand(LynxCommandData { module: m, command: LynxCommand::LynxSetMotorPowerCommand(c) }) => {
            assert_eq!(m.module_addr, 2);
            assert_eq!(c.motor, 1);
            assert_eq!(c.power, 1000);
        }
        _ => panic!("not a motor power command"),
    }
}

#[test]
fn bulk_response_is_decoded() {
    let module = hub(2);
    let mut data = LynxGetBulkDataResponseData::default();
    data.digital_inputs = 3;
    data.motor_status = 9;
    data.motors[0] = MotorData::new(-5, 7);
    data.motors[3] = MotorData::new(100000, -300);
    data.analog[2] = 1234;
    let p = Packet::new_full(LynxCommand::LynxGetBulkDataResponse(data).to_command(module), 0, 2, 4, 4);
    assert_eq!(p.packet_id, 0x9000);
    assert_eq!(p.packet_length, 45);
    let bytes = p.to_bytes();
    let back = Packet::from_data(&bytes, Some(module), None).expect("a packet");
    match back.payload_data {
        Command::LynxCommand(LynxCommandData { command: LynxCommand::LynxGetBulkDataResponse(d), .. }) => {
            assert_eq!(d.digital_inputs, 3);
            assert_eq!(d.motor_status, 9);
            assert_eq!(d.motors[0].position, -5);
            assert_eq!(d.motors[0].velocity, 7);
            assert_eq!(d.motors[3].position, 100000);
            assert_eq!(d.motors[3].velocity, -300);
            assert_eq!(d.analog[2], 1234);
        }
        _ => panic!("not a bulk response"),
    }
}

#[test]
fn unknown_hub_gives_unknown_payload() {
    let module = hub(2);
    let cmd = LynxCommand::LynxSetMotorPowerCommand(LynxSetMotorPowerCommandData { motor: 0, power: 1 });
    let bytes = Packet::new(cmd.to_command(module), 2, 1).to_bytes();
    let back = Packet::from_data(&bytes, None, None).expect("a packet");
    match back.payload_data {
        Command::LynxCommand(LynxCommandData { command: LynxCommand::LynxUnknownCommand(u), .. }) => {
            assert_eq!(u.pack_id(), 0x100F);
            assert_eq!(u.data(), &vec![0u8, 1, 0]);
        }
        _ => panic!("expected an unknown command"),
    }
}

#[test]
fn ack_payload() {
    let a = AckData { attention_required: true };
    assert_eq!(a.to_packet_id(), 0x7F01);
    assert_eq!(a.to_bytes(), vec![1u8]);
    let parsed = AckData::from_bytes(0x7F01, &[0], 0).expect("an ack");
    assert!(!parsed.attention_required);
    assert!(AckData::from_bytes(0x7F02, &[0], 0).is_none());
}

#[test]
fn nack_payload() {
    assert!(NackData::from_bytes(0x7F02, &[], 0).is_some());
    assert_eq!(NackData {}.get_bytes_len(), 0);
}

#[test]
fn standard_command_numbers() {
    assert!(is_standard_command(0x7F04));
    assert!(!is_standard_command(0xFF07));
    assert!(!is_standard_command(0x100F));
    assert_eq!(StandardCommands::try_from_u16(0x7F07), Some(StandardCommands::QueryInterface));
    assert_eq!(StandardCommands::try_from_u16(0x1234), None);
    assert_eq!(StandardCommands::KeepAlive.value(), 0x7F04);
    assert_eq!(Command::command_number(0x9000), 0x1000);
    assert!(Command::is_response(0x9000));
    assert!(!Command::is_response(0x1000));
}

#[test]
fn module_windows() {
    let m = hub(2);
    assert_eq!(m.module_type, ModuleType::Lynx);
    assert_eq!(m.module_name, "LYNX/DEKA");
    assert_eq!(m.is_module_command(0x100F), Some(15));
    assert_eq!(m.is_module_command(0x0FFF), None);
    assert_eq!(m.is_module_response(0x100F), None);
    assert_eq!(m.is_module_response(0x9000), Some(0x8000));
    let host = Module::null();
    assert_eq!(host.module_addr, 0);
    assert_eq!(host.module_type, ModuleType::Host);
    assert_eq!(host.module_name, "HOST");
}

#[test]
fn module_window_excludes_its_end() {
    let m = hub(2);
    assert_eq!(m.is_module_command(0x107F), Some(0x7F));
    assert_eq!(m.is_module_command(0x1080), None);
    assert_eq!(m.is_module_response(0x907F), Some(0x807F));
    assert_eq!(m.is_module_response(0x9080), None);
}

#[test]
fn host_module_accepts_nothing() {
    let host = Module::null();
    assert_eq!(host.is_module_command(0), None);
    assert_eq!(host.is_module_command(1), None);
    assert_eq!(host.is_module_response(0x8000), None);
}

#[test]
fn query_interface_name() {
    let q = QueryInterfaceData::new_deka();
    assert_eq!(q.name(), &vec![68u8, 69, 75, 65, 0]);
    assert_eq!(null_term_to_string(q.name()), "DEKA".to_string());
    assert_eq!(null_term_to_string(&vec![65u8, 66]), "AB".to_string());
}

#[test]
fn query_interface_response_roundtrip() {
    let r = QueryInterfaceResponseData { command_number_first: 0x1000, number_of_commands: 0x80 };
    let bytes = r.to_bytes();
    assert_eq!(bytes, vec![0u8, 0x10, 0x80, 0x00]);
    let back = QueryInterfaceResponseData::from_bytes(0xFF07, &bytes, 0).expect("a response");
    assert_eq!(back, r);
}

#[test]
fn packets_compare_by_value() {
    let a = Packet::new(Command::KeepAlive(KeepAliveData {}), 2, 5);
    let b = Packet::new(Command::KeepAlive(KeepAliveData {}), 2, 5);
    let c = Packet::new(Command::KeepAlive(KeepAliveData {}), 2, 6);
    assert!(a.same_as(&b));
    assert!(!a.same_as(&c));
    let d = a.duplicate();
    assert!(d.same_as(&a));
}

#[test]
fn hub_command_bytes_decode_back() {
    let c = LynxCommand::LynxSetMotorPowerCommand(LynxSetMotorPowerCommandData { motor: 1, power: -300 });
    let id = c.rel_packet_id();
    let bytes = c.to_bytes();
    match LynxCommandData::to_command(id, &bytes, 2) {
        LynxCommand::LynxSetMotorPowerCommand(x) => {
            assert_eq!(x.motor, 1);
            assert_eq!(x.power, -300);
        }
        _ => panic!("expected a motor power command"),
    }
}
