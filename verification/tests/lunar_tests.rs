use beautiful_clock::lunar::{
    days_in_month, format_lunar_date, is_leap_year, solar_to_lunar, LunarDate,
};

#[test]
fn leap_years() {
    assert!(is_leap_year(2024));
    assert!(!is_leap_year(2023));
    assert!(!is_leap_year(1900));
    assert!(is_leap_year(2000));
    // Total over the whole year range, proleptically.
    assert!(is_leap_year(-4));
    assert!(!is_leap_year(-100));
    assert!(is_leap_year(-400));
}

#[test]
fn negative_year_date() {
    // Outside the table the offset is 10; February of year -5 has 28
    // days, so March 1st is 28 + 1 - 10 + 31 = 50 days in.
    let d = solar_to_lunar(-5, 3, 1);
    assert_eq!(
        d,
        LunarDate { year: -5, month: 50 / 30 + 1, day: 50 % 30 + 1, is_leap_month: false }
    );
}

#[test]
fn month_lengths() {
    assert_eq!(days_in_month(2023, 1), 31);
    assert_eq!(days_in_month(2023, 2), 28);
    assert_eq!(days_in_month(2024, 2), 29);
    assert_eq!(days_in_month(2024, 4), 30);
    assert_eq!(days_in_month(2024, 12), 31);
    assert_eq!(days_in_month(2024, 13), 0);
}

#[test]
fn new_year_day_is_first_lunar_day() {
    // 2023's table offset is day 22: that day counts 0 days since the
    // new year, so it is the first day of the first lunar month.
    let d = solar_to_lunar(2023, 1, 22);
    assert_eq!(d, LunarDate { year: 2023, month: 1, day: 1, is_leap_month: false });
}

#[test]
fn day_before_new_year_belongs_to_previous_lunar_year() {
    // 2025's offset is day 29; 2024 is a leap year with offset 10:
    // 366 - 10 + 1 = 357 days into lunar 2024.
    let d = solar_to_lunar(2025, 1, 1);
    assert_eq!(
        d,
        LunarDate { year: 2024, month: 357 / 30 + 1, day: 357 % 30 + 1, is_leap_month: false }
    );
}

#[test]
fn date_after_offset_in_february() {
    // 2024's offset is day 10; February 10th gives 0 + 10 - 10 + 31 = 31
    // days since the new year: second lunar month, second day.
    let d = solar_to_lunar(2024, 2, 10);
    assert_eq!(d, LunarDate { year: 2024, month: 2, day: 2, is_leap_month: false });
}

#[test]
fn late_year_date() {
    // 2023, December 25th: months February through November sum to
    // 28 + 31 + 30 + 31 + 30 + 31 + 31 + 30 + 31 + 30 = 303 days;
    // 303 + 25 - 22 + 31 = 337.
    let d = solar_to_lunar(2023, 12, 25);
    assert_eq!(
        d,
        LunarDate { year: 2023, month: 337 / 30 + 1, day: 337 % 30 + 1, is_leap_month: false }
    );
}

#[test]
fn untabled_year_uses_default_offset() {
    // Outside the table the offset is 10.
    let d = solar_to_lunar(1999, 1, 10);
    assert_eq!(d, LunarDate { year: 1999, month: 1, day: 1, is_leap_month: false });
}

#[test]
fn lunar_date_formatting() {
    let d = LunarDate { year: 2024, month: 2, day: 2, is_leap_month: false };
    assert_eq!(format_lunar_date(&d), "农历2024年2月2日");
    let d2 = LunarDate { year: 987, month: 12, day: 30, is_leap_month: false };
    assert_eq!(format_lunar_date(&d2), "农历987年12月30日");
}
