use blaze_ftc::base_lynx_command::{LynxCommand, LynxCommandData};
use blaze_ftc::command::Command;
use blaze_ftc::command_utils::Module;
use blaze_ftc::commands::{KeepAliveData, QueryInterfaceResponseData};
use blaze_ftc::hardware::{
    discovery_request, hub_by_addr, hub_for_connection, hub_for_id, interface_response, number_packet, Direction,
    HubState,
};
use blaze_ftc::lynx_commands::{
    DcMotorRunMode, DcMotorZeroPowerBehavior, LynxGetBulkDataResponseData, MotorData,
};
use blaze_ftc::packet::Packet;

fn hub(addr: u8) -> Module {
    let window = QueryInterfaceResponseData { command_number_first: 0x1000, number_of_commands: 0x80 };
    Module::from_deka_discovery(addr, &window, true)
}

fn bulk_packet(module: Module, src: u8) -> Packet {
    let mut data = LynxGetBulkDataResponseData::default();
    data.motors[0] = MotorData::new(10, 3);
    data.motors[1] = MotorData::new(-20, -4);
    Packet::new_full(LynxCommand::LynxGetBulkDataResponse(data).to_command(module), 0, src, 0, 0)
}

#[test]
fn backwards_motors_are_flipped() {
    let module = hub(2);
    let mut state = HubState::new(module);
    assert_eq!(state.get_motor_direction(1), Direction::Forwards);
    state.set_direction(1, Direction::Backwards);
    assert_eq!(state.get_motor_direction(1), Direction::Backwards);
    let p = bulk_packet(module, 2);
    assert!(state.can_consume(&p));
    let d = state.should_consume(&p).expect("a reading");
    assert_eq!(d.motors[0].position, 10);
    assert_eq!(d.motors[0].velocity, 3);
    assert_eq!(d.motors[1].position, 20);
    assert_eq!(d.motors[1].velocity, 4);
}

#[test]
fn readings_of_other_hubs_are_not_consumed() {
    let module = hub(2);
    let state = HubState::new(module);
    let p = bulk_packet(hub(3), 3);
    assert!(state.should_consume(&p).is_none());
    let k = Packet::new(Command::KeepAlive(KeepAliveData {}), 2, 0);
    assert!(state.should_consume(&k).is_none());
}

#[test]
fn extreme_readings_cannot_be_flipped() {
    let module = hub(2);
    let mut state = HubState::new(module);
    state.set_direction(0, Direction::Backwards);
    let mut data = LynxGetBulkDataResponseData::default();
    data.motors[0] = MotorData::new(i32::MIN, 0);
    let p = Packet::new_full(LynxCommand::LynxGetBulkDataResponse(data).to_command(module), 0, 2, 0, 0);
    assert!(!state.can_consume(&p));
}

#[test]
fn repeated_power_is_skipped() {
    let mut state = HubState::new(hub(2));
    let c = state.motor_power_command(2, 1000, 0, true).expect("a command");
    match c {
        LynxCommand::LynxSetMotorPowerCommand(x) => {
            assert_eq!(x.motor, 2);
            assert_eq!(x.power, 1000);
        }
        _ => panic!("wrong command"),
    }
    assert!(state.motor_power_command(2, 1000, 0, true).is_none());
    assert!(state.motor_power_command(2, 1005, 10, true).is_none());
    assert!(state.motor_power_command(2, 1000, 0, false).is_some());
    assert!(state.motor_power_command(2, 1100, 10, true).is_some());
    assert_eq!(state.last_motor_powers[2], 1100);
}

#[test]
fn behavior_keeps_the_other_setting() {
    let mut state = HubState::new(hub(2));
    assert_eq!(state.get_motor_mode(0), DcMotorRunMode::RunWithoutEncoder);
    assert_eq!(state.get_zero_power_behavior(0), DcMotorZeroPowerBehavior::Brake);
    let c = state.set_motor_mode(0, DcMotorRunMode::RunToPosition);
    match c {
        LynxCommand::LynxSetMotorChannelModeCommand(x) => {
            assert_eq!(x.motor, 0);
            assert_eq!(x.run_mode, DcMotorRunMode::RunToPosition);
            assert_eq!(x.zero_power_behavior, DcMotorZeroPowerBehavior::Brake);
        }
        _ => panic!("wrong command"),
    }
    let c = state.set_zero_power_behavior(0, DcMotorZeroPowerBehavior::Float);
    match c {
        LynxCommand::LynxSetMotorChannelModeCommand(x) => {
            assert_eq!(x.run_mode, DcMotorRunMode::RunToPosition);
            assert_eq!(x.zero_power_behavior, DcMotorZeroPowerBehavior::Float);
        }
        _ => panic!("wrong command"),
    }
    assert_eq!(state.get_motor_mode(0), DcMotorRunMode::RunToPosition);
    assert_eq!(state.get_zero_power_behavior(0), DcMotorZeroPowerBehavior::Float);
    assert_eq!(state.get_motor_mode(1), DcMotorRunMode::RunWithoutEncoder);
}

#[test]
fn lynx_packet_is_addressed_to_the_hub() {
    let state = HubState::new(hub(2));
    let p = state.lynx_packet(LynxCommand::LynxGetBulkDataCommand(
        blaze_ftc::lynx_commands::LynxGetBulkDataCommandData {},
    ));
    assert_eq!(p.dest_module_addr, 2);
    assert_eq!(p.packet_id, 0x1000);
    assert_eq!(p.packet_length, 11);
    match p.payload_data {
        Command::LynxCommand(LynxCommandData { module, .. }) => assert_eq!(module.module_addr, 2),
        _ => panic!("wrong payload"),
    }
}

#[test]
fn numbering_sets_both_numbers() {
    let p = number_packet(Packet::new(Command::KeepAlive(KeepAliveData {}), 2, 0), 5);
    assert_eq!(p.message_number, 5);
    assert_eq!(p.reference_number, 5);
    assert_eq!(p.checksum, Packet::new_full(Command::KeepAlive(KeepAliveData {}), 2, 0, 5, 5).checksum);
}

#[test]
fn hub_lookup() {
    let h0 = hub(2);
    let h1 = hub(3);
    assert_eq!(hub_for_id(3, Some(h0), Some(h1)), Some(1));
    assert_eq!(hub_for_id(7, Some(h0), Some(h1)), Some(0));
    assert_eq!(hub_for_id(7, Some(h0), None), Some(0));
    assert_eq!(hub_for_id(7, None, None), None);
    assert_eq!(hub_by_addr(2, h0, Some(h1)), Some(0));
    assert_eq!(hub_by_addr(3, h0, Some(h1)), Some(1));
    assert_eq!(hub_by_addr(4, h0, Some(h1)), None);
    assert_eq!(hub_by_addr(3, h0, None), None);
    assert_eq!(hub_for_connection(3, Some(h1)), 1);
    assert_eq!(hub_for_connection(2, Some(h1)), 0);
    assert_eq!(hub_for_connection(3, None), 0);
}

#[test]
fn discovery_query_and_answer() {
    let q = discovery_request(2);
    assert_eq!(q.packet_id, 0x7F07);
    assert_eq!(q.dest_module_addr, 2);
    let bytes = q.duplicate().to_bytes();
    assert_eq!(&bytes[10..15], &[68u8, 69, 75, 65, 0]);
    let window = QueryInterfaceResponseData { command_number_first: 0x1000, number_of_commands: 0x80 };
    let answer = Packet::new_full(Command::QueryInterfaceResponse(window), 0, 2, 0, 0);
    assert_eq!(interface_response(&answer), Some(window));
    assert_eq!(interface_response(&q), None);
}
