use stamp_member::chrono_utility::{calc_date_moment_difference, duration_with_hms, DateDifference};
use stamp_member::moment::Moment;

fn utc(year: i32, month: u32, day: u32, hour: u32, minute: u32, second: u32) -> Moment {
    Moment::from_ymd_hms(year, month, day, hour, minute, second).unwrap()
}

#[test]
fn should_have_seconds_difference() {
    let greater = utc(2000, 1, 1, 1, 0, 25);
    let smaller = utc(2000, 1, 1, 1, 0, 12);
    let default = Default::default();
    let expected = DateDifference {
        seconds: 13,
        ..default
    };

    let actual = calc_date_moment_difference(&greater, &smaller);

    assert_eq!(expected, actual);
}

#[test]
fn should_have_secs_min_difference() {
    let greater = utc(2000, 1, 1, 1, 2, 35);
    let smaller = utc(2000, 1, 1, 1, 0, 12);
    let default = Default::default();
    let expected = DateDifference {
        seconds: 23,
        minutes: 2,
        ..default
    };

    let actual = calc_date_moment_difference(&greater, &smaller);

    assert_eq!(expected, actual);
}

#[test]
fn should_have_secs_min_hour_difference() {
    let greater = utc(2000, 1, 1, 8, 2, 35);
    let smaller = utc(2000, 1, 1, 1, 23, 0);
    let default = Default::default();
    let expected = DateDifference {
        seconds: 35,
        minutes: 39,
        hours: 6,
        ..default
    };

    let actual = calc_date_moment_difference(&greater, &smaller);

    assert_eq!(expected, actual);
}

#[test]
fn should_have_secs_min_hour_day_year_difference() {
    let greater = utc(2000, 5, 28, 13, 7, 12);
    let smaller = utc(1998, 3, 11, 2, 31, 5);
    let expected = DateDifference {
        seconds: 7,
        minutes: 36,
        hours: 10,
        days: 79,
        years: 2,
    };

    let actual = calc_date_moment_difference(&greater, &smaller);

    assert_eq!(expected, actual);
}

#[test]
fn should_to_string_date_difference() {
    let to_convert = DateDifference {
        seconds: 7,
        minutes: 36,
        hours: 10,
        days: 79,
        years: 2,
    };

    let text = to_convert.to_string();
    let expected = "0002:079 10:36:07";
    assert_eq!(expected, text);
}

#[test]
fn cascade_of_two_years_renders_fixed_width() {
    let total = 2 * 365 * 86_400 + 79 * 86_400 + 10 * 3_600 + 36 * 60 + 7;
    let difference = DateDifference::new(total);
    assert_eq!(difference.to_string(), "0002:079 10:36:07");
}

#[test]
fn thirteen_seconds_leave_coarser_fields_zero() {
    let earlier = utc(2021, 6, 30, 23, 59, 50);
    let later = Moment::from_timestamp(earlier.timestamp() + 13).unwrap();
    let difference = calc_date_moment_difference(&later, &earlier);
    assert_eq!(difference, DateDifference { seconds: 13, ..Default::default() });
    assert_eq!(difference.to_string(), "0000:000 00:00:13");
}

#[test]
fn zero_span_is_all_zero() {
    let moment = utc(2000, 1, 1, 0, 0, 0);
    let difference = calc_date_moment_difference(&moment, &moment);
    assert_eq!(difference, DateDifference::default());
    assert_eq!(difference.to_string(), "0000:000 00:00:00");
}

#[test]
fn leap_days_are_not_corrected() {
    // 366 days from 2000-01-01 (a leap year) is one fixed year and one day.
    let earlier = utc(2000, 1, 1, 0, 0, 0);
    let later = utc(2001, 1, 1, 0, 0, 0);
    let difference = calc_date_moment_difference(&later, &earlier);
    assert_eq!(difference, DateDifference { days: 1, years: 1, ..Default::default() });
}

#[test]
fn years_beyond_four_digits_are_not_cut() {
    let difference = DateDifference::new(u64::MAX);
    let text = difference.to_string();
    assert!(text.starts_with("584942417355:"));
}

#[test]
fn duration_in_seconds() {
    assert_eq!(duration_with_hms(4, 2, 20), 4 * 3_600 + 2 * 60 + 20);
    assert_eq!(duration_with_hms(0, 0, 0), 0);
    assert_eq!(duration_with_hms(-1, 30, 0), -1_800);
    let started = utc(2000, 1, 1, 0, 0, 0);
    let later = Moment::from_timestamp(started.timestamp() + duration_with_hms(1, 20, 33)).unwrap();
    assert_eq!(
        calc_date_moment_difference(&later, &started).to_string(),
        "0000:000 01:20:33"
    );
}
