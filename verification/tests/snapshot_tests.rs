use blaze_ftc::octoquad::{decode_snapshot_groups, LOCALIZER, POSITIONS, VELOCITY};
use blaze_ftc::pinpoint::PinpointCounts;

fn le_i32s(v: &[i32]) -> Vec<u8> {
    v.iter().flat_map(|x| x.to_le_bytes()).collect()
}

fn le_i16s(v: &[i16]) -> Vec<u8> {
    v.iter().flat_map(|x| x.to_le_bytes()).collect()
}

#[test]
fn octoquad_groups_follow_the_mode() {
    let pos = [1i32, -2, 300, 40000, 5, 6, -7, 8];
    let vel = [10i16, -20, 30, 40, 50, 60, 70, -80];
    let mut data = le_i32s(&pos);
    data.extend(le_i16s(&vel));
    let (ld, p, v) = decode_snapshot_groups(POSITIONS | VELOCITY, &data);
    assert!(ld.is_none());
    assert_eq!(p.expect("positions").expect("aligned").pos, pos);
    assert_eq!(v.expect("velocities").expect("aligned").vel, vel);
}

#[test]
fn octoquad_localizer_group_is_raw_and_shifts_the_rest() {
    let vel = [1i16, 2, 3, 4, 5, 6, 7, 8];
    let mut data: Vec<u8> = (0u8..13).collect();
    data.extend(le_i16s(&vel));
    let (ld, p, v) = decode_snapshot_groups(LOCALIZER | VELOCITY, &data);
    assert_eq!(ld.expect("localizer"), data[0..15].to_vec());
    assert!(p.is_none());
    assert_eq!(v.expect("velocities").expect("aligned").vel, vel);
}

#[test]
fn pinpoint_counts_are_little_endian() {
    let mut data = le_i32s(&[3, 1500, -42, 77]);
    data.extend(vec![0u8; 24]);
    let c = PinpointCounts::from_bytes(&data);
    assert_eq!(c.device_status, 3);
    assert_eq!(c.loop_time, 1500);
    assert_eq!(c.x_encoder_position, -42);
    assert_eq!(c.y_encoder_position, 77);
}
