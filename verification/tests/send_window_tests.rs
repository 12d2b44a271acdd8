use blaze_ftc::send_window::SendWindow;

const MS: u64 = 1_000_000;

#[test]
fn recent_writes_are_counted() {
    let mut w = SendWindow::new(0);
    w.record(100 * MS, 11);
    w.record(105 * MS, 20);
    w.record(108 * MS, 7);
    assert_eq!(w.bytes_within(112 * MS, 10 * MS), 27);
    assert_eq!(w.bytes_within(108 * MS, 10 * MS), 38);
    assert_eq!(w.bytes_within(200 * MS, 10 * MS), 0);
}

#[test]
fn oldest_write_is_overwritten() {
    let mut w = SendWindow::new(0);
    for _ in 0..100 {
        w.record(MS, 1);
    }
    assert_eq!(w.bytes_within(MS, 10 * MS), 100);
    w.record(MS, 50);
    assert_eq!(w.bytes_within(MS, 10 * MS), 149);
}

#[test]
fn writes_after_now_count_as_just_made() {
    let mut w = SendWindow::new(0);
    w.record(500 * MS, 9);
    assert_eq!(w.bytes_within(100 * MS, 0), 9);
}
