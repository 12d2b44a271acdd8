use blaze_ftc::base_lynx_command::{LynxCommand, LynxCommandData};
use blaze_ftc::command::Command;
use blaze_ftc::command_utils::Module;
use blaze_ftc::commands::{KeepAliveData, QueryInterfaceResponseData};
use blaze_ftc::lynx_commands::LynxSetMotorPowerCommandData;
use blaze_ftc::packet::Packet;
use blaze_ftc::proxy::{
    is_legal, register_packet_0, register_packets, remap_sdk_packet, seal_packets, IdTransform, ReadProxy,
    ReadRoute, SdkReadBuffer, MESSAGE_SLOTS,
};

fn hub(addr: u8) -> Module {
    let window = QueryInterfaceResponseData { command_number_first: 0x1000, number_of_commands: 0x80 };
    Module::from_deka_discovery(addr, &window, true)
}

fn keep_alive(dest: u8, num: u8) -> Packet {
    Packet::new(Command::KeepAlive(KeepAliveData {}), dest, num)
}

#[test]
fn register_takes_oldest_slot() {
    let mut times = vec![50u64, 20, 30, 20];
    let n = register_packet_0(&mut times, 100);
    assert_eq!(n, 1);
    assert_eq!(times, vec![50, 100, 30, 20]);
    let n = register_packet_0(&mut times, 100);
    assert_eq!(n, 3);
    assert_eq!(times, vec![50, 100, 30, 100]);
}

#[test]
fn register_with_nothing_stale_takes_slot_zero() {
    let mut times = vec![100u64, 200, 300];
    let n = register_packet_0(&mut times, 100);
    assert_eq!(n, 0);
    assert_eq!(times, vec![100, 200, 300]);
}

#[test]
fn register_batch_is_distinct() {
    let mut times = vec![0u64; MESSAGE_SLOTS];
    let ns = register_packets(&mut times, 10, 5);
    assert_eq!(ns, vec![0u8, 1, 2, 3, 4]);
    let ns = register_packets(&mut times, 20, 3);
    assert_eq!(ns, vec![5u8, 6, 7]);
    assert_eq!(times[0], 10);
    assert_eq!(times[7], 20);
}

#[test]
fn remap_keeps_old_numbers() {
    let p = keep_alive(2, 42);
    let (q, t) = remap_sdk_packet(p, 9);
    assert_eq!(t.old_id, 42);
    assert_eq!(t.new_id, 9);
    assert_eq!(t.old_pack_id, 0x7F04);
    assert_eq!(t.old_pack.message_number, 42);
    assert_eq!(q.message_number, 9);
    assert_eq!(q.reference_number, 9);
    let expected = Packet::new_full(Command::KeepAlive(KeepAliveData {}), 2, 0, 9, 9);
    assert_eq!(q.checksum, expected.checksum);
    assert!(q.same_as(&expected));
}

#[test]
fn seal_recomputes_checksums() {
    let mut p = keep_alive(2, 5);
    p.checksum = 0;
    let sealed = seal_packets(vec![p]).expect("packets");
    assert_eq!(sealed.len(), 1);
    assert_eq!(sealed[0].checksum, 36);
    assert!(seal_packets(vec![]).is_none());
}

#[test]
fn motor_power_is_zeroed_when_not_allowed() {
    let module = hub(2);
    let cmd = LynxCommand::LynxSetMotorPowerCommand(LynxSetMotorPowerCommandData { motor: 1, power: 500 });
    let mut p = Packet::new(cmd.to_command(module), 2, 0);
    assert!(is_legal(&mut p, true));
    match &p.payload_data {
        Command::LynxCommand(LynxCommandData { command: LynxCommand::LynxSetMotorPowerCommand(c), .. }) => {
            assert_eq!(c.power, 500)
        }
        _ => panic!("changed kind"),
    }
    assert!(is_legal(&mut p, false));
    match &p.payload_data {
        Command::LynxCommand(LynxCommandData { command: LynxCommand::LynxSetMotorPowerCommand(c), .. }) => {
            assert_eq!(c.power, 0);
            assert_eq!(c.motor, 1);
        }
        _ => panic!("changed kind"),
    }
    let mut k = keep_alive(2, 0);
    assert!(is_legal(&mut k, false));
    assert!(k.same_as(&keep_alive(2, 0)));
}

#[test]
fn read_proxy_routes_first_packets_to_sdk() {
    let mut proxy = ReadProxy::new();
    let mut watch: Vec<IdTransform> = Vec::new();
    let first = keep_alive(2, 1);
    assert!(matches!(proxy.route(first.duplicate(), &mut watch), ReadRoute::Sdk(_)));
    assert!(matches!(proxy.route(first.duplicate(), &mut watch), ReadRoute::Sdk(_)));
    assert!(!proxy.had_second_packet);
    assert!(matches!(proxy.route(keep_alive(2, 2), &mut watch), ReadRoute::Regular(_)));
    assert!(proxy.had_second_packet);
    assert!(matches!(proxy.route(first, &mut watch), ReadRoute::Regular(_)));
}

#[test]
fn read_proxy_gives_answers_back_under_sdk_number() {
    let mut proxy = ReadProxy::new();
    let mut watch: Vec<IdTransform> = Vec::new();
    let _ = proxy.route(keep_alive(2, 1), &mut watch);
    let (sent, t) = remap_sdk_packet(keep_alive(2, 77), 12);
    assert_eq!(sent.reference_number, 12);
    watch.push(t);
    let answer = Packet::new_full(Command::KeepAlive(KeepAliveData {}), 0, 2, 12, 12);
    match proxy.route(answer, &mut watch) {
        ReadRoute::Sdk(p) => {
            assert_eq!(p.message_number, 77);
            assert_eq!(p.reference_number, 77);
        }
        ReadRoute::Regular(_) => panic!("should go to the sdk"),
    }
    assert!(watch.is_empty());
    let other = Packet::new_full(Command::KeepAlive(KeepAliveData {}), 0, 2, 13, 13);
    assert!(matches!(proxy.route(other, &mut watch), ReadRoute::Regular(_)));
}

#[test]
fn sdk_read_drops_frame_on_first_read() {
    let mut buf = SdkReadBuffer::new();
    assert!(buf.is_empty());
    buf.push_packet(keep_alive(2, 5));
    assert!(buf.can_take(100));
    let got = buf.take(100);
    assert_eq!(got, vec![2u8, 0, 5, 0, 4, 127, 36]);
    assert!(buf.is_empty());
    assert!(buf.has_received);
}

#[test]
fn sdk_read_first_single_byte_drops_nothing() {
    let mut buf = SdkReadBuffer::new();
    buf.push_packet(keep_alive(2, 5));
    assert_eq!(buf.take(1), vec![68u8]);
    assert_eq!(buf.take(3), vec![75u8, 11, 0]);
    assert_eq!(buf.bytes.len(), 7);
}

#[test]
fn sdk_read_first_two_bytes_drop_two() {
    let mut buf = SdkReadBuffer::new();
    buf.push_packet(keep_alive(2, 5));
    assert_eq!(buf.take(2), vec![11u8, 0]);
}

#[test]
fn sdk_read_cannot_drop_missing_bytes() {
    let buf = SdkReadBuffer::new();
    assert!(!buf.can_take(4));
    assert!(buf.can_take(1));
}

#[test]
fn registering_nothing_needs_no_slot() {
    let mut times: Vec<u64> = Vec::new();
    assert_eq!(register_packets(&mut times, 10, 0), Vec::<u8>::new());
    assert!(times.is_empty());
}
