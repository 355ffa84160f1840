use beautiful_clock::clock::{
    ClockSnapshot, TimeFields, Weekday, date_string, hour_angle_ticks, minute_angle_ticks,
    second_angle_ticks, snapshot_of, time_string, weekday_to_chinese, TICKS_PER_TURN,
};
use beautiful_clock::localtime::current_snapshot;

fn fields(
    year: i32,
    month: u32,
    day: u32,
    hour: u32,
    minute: u32,
    second: u32,
    weekday: Weekday,
) -> TimeFields {
    TimeFields { year, month, day, hour, minute, second, weekday }
}

#[test]
fn angle_formulas_exact() {
    // 1/120-degree ticks: second * 6 deg, (minute + second/60) * 6 deg,
    // ((hour % 12) + (minute + second/60)/60) * 30 deg.
    assert_eq!(second_angle_ticks(15), 15 * 720);
    assert_eq!(minute_angle_ticks(30, 15), 30 * 720 + 15 * 12);
    assert_eq!(hour_angle_ticks(3, 30, 15), 3 * 3600 + 30 * 60 + 15);
    // 15 s is 90 degrees.
    assert_eq!(second_angle_ticks(15), 90 * 120);
}

#[test]
fn angles_use_hour_mod_12() {
    assert_eq!(hour_angle_ticks(13, 0, 0), hour_angle_ticks(1, 0, 0));
    assert_eq!(hour_angle_ticks(12, 0, 0), 0);
}

#[test]
fn angles_within_full_turn() {
    for hour in 0..24 {
        for &minute in &[0u32, 1, 30, 59] {
            for &second in &[0u32, 1, 30, 59] {
                assert!(second_angle_ticks(second) < TICKS_PER_TURN);
                assert!(minute_angle_ticks(minute, second) < TICKS_PER_TURN);
                assert!(hour_angle_ticks(hour, minute, second) < TICKS_PER_TURN);
            }
        }
    }
}

#[test]
fn time_string_zero_padded() {
    assert_eq!(time_string(0, 0, 0), "00:00:00");
    assert_eq!(time_string(9, 5, 7), "09:05:07");
    assert_eq!(time_string(23, 59, 59), "23:59:59");
}

#[test]
fn date_string_localized() {
    assert_eq!(date_string(2024, 1, 5), "2024年01月05日");
    assert_eq!(date_string(987, 12, 31), "0987年12月31日");
    assert_eq!(date_string(-1, 2, 3), "-1年02月03日");
}

#[test]
fn weekday_names_fixed() {
    assert_eq!(weekday_to_chinese(Weekday::Mon), "星期一");
    assert_eq!(weekday_to_chinese(Weekday::Tue), "星期二");
    assert_eq!(weekday_to_chinese(Weekday::Wed), "星期三");
    assert_eq!(weekday_to_chinese(Weekday::Thu), "星期四");
    assert_eq!(weekday_to_chinese(Weekday::Fri), "星期五");
    assert_eq!(weekday_to_chinese(Weekday::Sat), "星期六");
    assert_eq!(weekday_to_chinese(Weekday::Sun), "星期日");
}

#[test]
fn weekday_names_pairwise_distinct() {
    let days = [
        Weekday::Mon,
        Weekday::Tue,
        Weekday::Wed,
        Weekday::Thu,
        Weekday::Fri,
        Weekday::Sat,
        Weekday::Sun,
    ];
    for i in 0..days.len() {
        for j in 0..days.len() {
            if i != j {
                assert_ne!(weekday_to_chinese(days[i]), weekday_to_chinese(days[j]));
            }
        }
    }
}

#[test]
fn snapshot_renders_all_fields() {
    let f = fields(2025, 6, 8, 14, 30, 45, Weekday::Sun);
    let s: ClockSnapshot = snapshot_of(&f);
    assert_eq!(s.time, "14:30:45");
    assert_eq!(s.date, "2025年06月08日");
    assert_eq!(s.weekday, "星期日");
    assert_eq!(s.second_ticks, 45 * 720);
    assert_eq!(s.minute_ticks, 30 * 720 + 45 * 12);
    assert_eq!(s.hour_ticks, 2 * 3600 + 30 * 60 + 45);
}

#[test]
fn current_snapshot_is_well_formed() {
    let s = current_snapshot();
    // HH:MM:SS, ASCII.
    assert_eq!(s.time.len(), 8);
    assert_eq!(s.time.as_bytes()[2], b':');
    assert_eq!(s.time.as_bytes()[5], b':');
    assert!(s.weekday.starts_with("星期"));
    assert!(s.hour_ticks < TICKS_PER_TURN);
    assert!(s.minute_ticks < TICKS_PER_TURN);
    assert!(s.second_ticks < TICKS_PER_TURN);
}
