use post_index::clock::{
    attach_assumed_zone, convert_zone, display_time, NaiveTimestamp, ZonedTimestamp,
    DISPLAY_OFFSET_SECONDS, DISPLAY_PATTERN,
};

#[test]
fn the_display_zone_is_nine_hours_east() {
    assert_eq!(DISPLAY_OFFSET_SECONDS, 32_400);
    assert_eq!(DISPLAY_PATTERN, "%Y-%m-%d %H:%M:%S");
}

#[test]
fn attaching_a_zone_keeps_the_clock_reading() {
    let zoned = attach_assumed_zone(NaiveTimestamp { seconds: 1_000 }, -3_600);
    assert_eq!(zoned, ZonedTimestamp { local_seconds: 1_000, offset_seconds: -3_600 });
}

#[test]
fn converting_a_zone_keeps_the_moment() {
    let at = ZonedTimestamp { local_seconds: 1_000, offset_seconds: -3_600 };
    let moved = convert_zone(at, 7_200).unwrap();
    assert_eq!(moved, ZonedTimestamp { local_seconds: 11_800, offset_seconds: 7_200 });
    assert_eq!(
        moved.local_seconds - moved.offset_seconds as i64,
        at.local_seconds - at.offset_seconds as i64
    );
    assert_eq!(convert_zone(at, -3_600), Some(at));
}

#[test]
fn converting_beyond_the_counter_gives_nothing() {
    let late = ZonedTimestamp { local_seconds: i64::MAX, offset_seconds: 0 };
    assert_eq!(convert_zone(late, 1), None);
    assert_eq!(
        convert_zone(late, -1),
        Some(ZonedTimestamp { local_seconds: i64::MAX - 1, offset_seconds: -1 })
    );
    let early = ZonedTimestamp { local_seconds: i64::MIN, offset_seconds: 0 };
    assert_eq!(convert_zone(early, -1), None);
}

#[test]
fn a_time_written_at_greenwich_is_shown_nine_hours_later() {
    let shown = display_time(NaiveTimestamp { seconds: 1_704_067_200 }, 0).unwrap();
    assert_eq!(shown.local_seconds, 1_704_067_200 + 9 * 3600);
    assert_eq!(shown.offset_seconds, 32_400);
}

#[test]
fn a_time_written_in_the_display_zone_is_shown_unchanged() {
    let shown = display_time(NaiveTimestamp { seconds: 86_400 }, 32_400).unwrap();
    assert_eq!(shown.local_seconds, 86_400);
}

#[test]
fn a_time_written_west_of_greenwich_is_shown_later_still() {
    let shown = display_time(NaiveTimestamp { seconds: 0 }, -5 * 3600).unwrap();
    assert_eq!(shown.local_seconds, 14 * 3600);
    assert_eq!(display_time(NaiveTimestamp { seconds: i64::MAX }, 0), None);
}
