use blaze_ftc::command::Command;
use blaze_ftc::commands::KeepAliveData;
use blaze_ftc::packet::Packet;
use blaze_ftc::reader::{frame_byte_matches, BodyOutcome, FrameReader, HeaderOutcome};
use blaze_ftc::scheduler::{
    check_pause, get_next_timer, note_pause_request, plan_orders, OrderTiming, Orders, SchedulerError,
};
use blaze_ftc::timing::{ElapsedTimer, MovingAverage, TimingStats};

const MS: u64 = 1_000_000;

#[test]
fn first_run_is_at_offset() {
    let o = Orders::new(2 * MS, 10 * MS);
    assert_eq!(o.when_would_run(0, 0), 2 * MS);
    assert_eq!(o.when_would_run(5 * MS, 100), 12 * MS + 100);
}

#[test]
fn missed_runs_are_skipped() {
    let mut o = Orders::new(0, 10 * MS);
    o.last_scheduled = Some(10 * MS);
    assert_eq!(o.when_would_run(15 * MS, 0), 20 * MS);
    assert_eq!(o.when_would_run(35 * MS, 0), 40 * MS);
    assert_eq!(o.when_would_run(40 * MS, 0), 40 * MS);
}

#[test]
fn soonest_group_runs_first() {
    let mut orders = vec![Orders::new(5 * MS, 10 * MS), Orders::new(2 * MS, 10 * MS), Orders::new(8 * MS, 10 * MS)];
    let runs = get_next_timer(0, &mut orders, 0);
    assert_eq!(runs, vec![(2 * MS, 1usize)]);
    assert_eq!(orders[1].last_scheduled, Some(2 * MS));
    assert_eq!(orders[0].last_scheduled, None);
    let runs = get_next_timer(0, &mut orders, 3 * MS);
    assert_eq!(runs, vec![(5 * MS, 0usize)]);
}

#[test]
fn close_groups_run_together() {
    let mut orders = vec![
        Orders::new(1_000_000, 10 * MS),
        Orders::new(1_100_000, 10 * MS),
        Orders::new(1_020_000, 10 * MS),
        Orders::new(1_400_000, 10 * MS),
    ];
    let runs = get_next_timer(0, &mut orders, 0);
    assert_eq!(runs, vec![(1_000_000, 0usize), (1_020_000, 2usize)]);
    assert_eq!(orders[0].last_scheduled, Some(1_000_000));
    assert_eq!(orders[2].last_scheduled, None);
}

#[test]
fn each_group_runs_once_per_cycle() {
    let mut orders = vec![
        Orders::new(1_000_000, 10 * MS),
        Orders::new(1_020_000, 10 * MS),
        Orders::new(1_020_000, 10 * MS),
        Orders::new(1_040_000, 10 * MS),
        Orders::new(1_200_000, 10 * MS),
    ];
    let runs = get_next_timer(0, &mut orders, 0);
    assert_eq!(runs, vec![(1_000_000, 0usize), (1_020_000, 1usize), (1_020_000, 2usize), (1_040_000, 3usize)]);
    let mut ids: Vec<usize> = runs.iter().map(|r| r.1).collect();
    ids.dedup();
    assert_eq!(ids.len(), runs.len());
}

#[test]
fn no_gap_keeps_only_the_soonest() {
    let mut orders = vec![Orders::new(1_000_000, 10 * MS), Orders::new(1_010_000, 10 * MS)];
    let runs = get_next_timer(0, &mut orders, 0);
    assert_eq!(runs, vec![(1_000_000, 0usize)]);
}

#[test]
fn orders_are_grouped() {
    let orders = vec![
        OrderTiming { offset: 0, rate: 5 * MS },
        OrderTiming { offset: MS, rate: 5 * MS },
        OrderTiming { offset: 0, rate: 5 * MS },
    ];
    let (groups, assign) = plan_orders(&orders).expect("a plan");
    assert_eq!(groups.len(), 2);
    assert_eq!(groups[0].offset, 0);
    assert_eq!(groups[1].offset, MS);
    assert_eq!(assign, vec![0usize, 1, 0]);
    assert!(groups.iter().all(|g| g.last_scheduled.is_none()));
}

#[test]
fn too_many_orders_are_refused() {
    let orders = vec![OrderTiming { offset: 0, rate: 5 * MS }; 11];
    assert_eq!(plan_orders(&orders).err(), Some(SchedulerError::TooMany));
}

#[test]
fn too_fast_orders_are_refused() {
    let orders = vec![OrderTiming { offset: 0, rate: 5 * MS }, OrderTiming { offset: 0, rate: 499_999 }];
    assert_eq!(plan_orders(&orders).err(), Some(SchedulerError::TooFast));
    let orders = vec![OrderTiming { offset: 0, rate: 500_000 }];
    assert!(plan_orders(&orders).is_ok());
}

#[test]
fn empty_schedule_has_no_group() {
    let (groups, assign) = plan_orders(&vec![]).expect("a plan");
    assert!(groups.is_empty());
    assert!(assign.is_empty());
}

#[test]
fn pauses() {
    assert_eq!(note_pause_request(None, 10, 20), None);
    assert_eq!(note_pause_request(Some(5), 30, 20), Some(30));
    assert_eq!(check_pause(None, 20), (None, true));
    assert_eq!(check_pause(Some(10), 20), (None, true));
    assert_eq!(check_pause(Some(20), 20), (Some(20), false));
    assert_eq!(check_pause(Some(30), 20), (Some(30), false));
}

#[test]
fn moving_average_window() {
    let mut m = MovingAverage::new(4);
    assert_eq!(m.avg(), 0);
    m.update(4);
    m.update(8);
    assert_eq!(m.avg(), 3);
    m.update(4);
    m.update(8);
    assert_eq!(m.avg(), 6);
    m.update(0);
    assert_eq!(m.avg(), 5);
}

#[test]
fn timing_stats_track_extremes() {
    let mut t = TimingStats::new();
    assert_eq!(t.min, u32::MAX);
    t.update(10);
    t.update(4);
    t.update(20);
    assert_eq!(t.min, 4);
    assert_eq!(t.max, 20);
    assert_eq!(t.avg, 0);
    for _ in 0..500 {
        t.update(6);
    }
    assert_eq!(t.avg, 6);
}

#[test]
fn stopwatch_runs() {
    let mut t = ElapsedTimer::new();
    let a = t.duration();
    let b = t.duration_reset();
    assert!(b >= a);
}

#[test]
fn frame_bytes() {
    assert!(frame_byte_matches(0, 68));
    assert!(frame_byte_matches(1, 75));
    assert!(!frame_byte_matches(1, 68));
}

#[test]
fn reader_finds_a_packet_after_locking() {
    let wire = Packet::new(Command::KeepAlive(KeepAliveData {}), 2, 5).to_bytes();
    let mut r = FrameReader::new();
    r.on_lock_attempt(true);
    assert_eq!(r.header_len(), 2);
    let body_len = match r.on_header(&wire[2..4]) {
        HeaderOutcome::ReadBody(n) => n,
        _ => panic!("expected a body"),
    };
    assert_eq!(body_len, 7);
    match r.on_body(&wire[4..11], None, None) {
        BodyOutcome::Packet(p) => assert_eq!(p.message_number, 5),
        _ => panic!("expected a packet"),
    }
    assert_eq!(r.header_len(), 4);
    match r.on_header(&wire[0..4]) {
        HeaderOutcome::ReadBody(n) => assert_eq!(n, 7),
        _ => panic!("expected a body"),
    }
    let mut bad = wire[4..11].to_vec();
    bad[6] = bad[6].wrapping_add(1);
    assert!(matches!(r.on_body(&bad, None, None), BodyOutcome::Resync));
    assert!(!r.locked);
}

#[test]
fn reader_resyncs_without_frame() {
    let wire = Packet::new(Command::KeepAlive(KeepAliveData {}), 2, 5).to_bytes();
    let mut r = FrameReader::new();
    r.on_lock_attempt(true);
    let _ = r.on_header(&wire[2..4]);
    assert!(matches!(r.on_body(&wire[4..11], None, None), BodyOutcome::Packet(_)));
    assert_eq!(r.header_len(), 4);
    assert_eq!(r.on_header(&[1, 2, 11, 0]), HeaderOutcome::Resync);
    assert!(!r.locked);
    r.on_lock_attempt(false);
    assert!(!r.locked);
}

#[test]
fn reader_refuses_short_lengths() {
    let mut r = FrameReader::new();
    r.on_lock_attempt(true);
    assert_eq!(r.on_header(&[3, 0]), HeaderOutcome::Malformed);
}

#[test]
fn aligned_reader_reads_each_packet_of_a_stream() {
    let first = Packet::new(Command::KeepAlive(KeepAliveData {}), 2, 5).to_bytes();
    let mut r = FrameReader::new();
    r.on_lock_attempt(true);
    let _ = r.on_header(&first[2..4]);
    assert!(matches!(r.on_body(&first[4..11], None, None), BodyOutcome::Packet(_)));
    for n in 6u8..9 {
        let wire = Packet::new(Command::KeepAlive(KeepAliveData {}), 3, n).to_bytes();
        assert_eq!(r.header_len(), 4);
        assert_eq!(r.on_header(&wire[0..4]), HeaderOutcome::ReadBody(wire.len() - 4));
        match r.on_body(&wire[4..], None, None) {
            BodyOutcome::Packet(p) => {
                assert_eq!(p.message_number, n);
                assert_eq!(p.dest_module_addr, 3);
                assert_eq!(p.to_bytes(), wire);
            }
            _ => panic!("expected a packet"),
        }
        assert!(r.locked && r.was_locked);
    }
}
