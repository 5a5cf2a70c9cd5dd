use zerium::time_grid::{format_timestamp_seconds, grid_frames};

#[test]
fn timestamps_are_written_as_hours_minutes_seconds() {
    assert_eq!(format_timestamp_seconds(0), "00:00:00");
    assert_eq!(format_timestamp_seconds(59), "00:00:59");
    assert_eq!(format_timestamp_seconds(61), "00:01:01");
    assert_eq!(format_timestamp_seconds(3_661), "01:01:01");
    assert_eq!(format_timestamp_seconds(86_399), "23:59:59");
}

#[test]
fn hours_take_more_digits_when_needed() {
    assert_eq!(format_timestamp_seconds(360_000), "100:00:00");
    assert_eq!(
        format_timestamp_seconds(u64::MAX),
        format!(
            "{:02}:{:02}:{:02}",
            u64::MAX / 3_600,
            (u64::MAX / 60) % 60,
            u64::MAX % 60
        )
    );
}

#[test]
fn grid_starts_one_step_before_the_visible_range() {
    assert_eq!(grid_frames(25, 50, 10), vec![10, 20, 30, 40, 50, 60]);
    assert_eq!(grid_frames(30, 30, 10), vec![20, 30, 40]);
}

#[test]
fn grid_at_the_start_of_the_timeline() {
    assert_eq!(grid_frames(0, 0, 5), vec![0, 5]);
    assert_eq!(grid_frames(3, 12, 5), vec![0, 5, 10, 15]);
}

#[test]
fn grid_covers_every_visible_multiple_of_the_step() {
    let (first, last, step) = (123, 987, 30);
    let frames = grid_frames(first, last, step);
    for frame in (first..=last).filter(|frame| frame % step == 0) {
        assert!(frames.contains(&frame), "missing {frame}");
    }
    assert!(frames.windows(2).all(|pair| pair[1] == pair[0] + step));
}

#[test]
fn grid_saturates_at_the_end_of_the_frame_range() {
    let frames = grid_frames(u64::MAX - 5, u64::MAX, 10);
    assert_eq!(frames.len(), 3);
    assert_eq!(*frames.last().unwrap(), u64::MAX);
}
