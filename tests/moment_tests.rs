use stamp_member::moment::{Moment, MAX_TIMESTAMP, MIN_TIMESTAMP};

#[test]
fn calendar_moments_have_their_timestamps() {
    assert_eq!(Moment::from_ymd_hms(1970, 1, 1, 0, 0, 0).unwrap().timestamp(), 0);
    assert_eq!(Moment::from_ymd_hms(1970, 1, 2, 0, 0, 1).unwrap().timestamp(), 86_401);
    assert_eq!(
        Moment::from_ymd_hms(2014, 8, 24, 18, 8, 24).unwrap().timestamp(),
        1_408_903_704
    );
    assert_eq!(Moment::from_ymd_hms(1969, 12, 31, 23, 59, 59).unwrap().timestamp(), -1);
}

#[test]
fn impossible_calendar_moments_are_refused() {
    assert!(Moment::from_ymd_hms(2015, 2, 29, 0, 0, 0).is_none());
    assert!(Moment::from_ymd_hms(2015, 13, 1, 0, 0, 0).is_none());
    assert!(Moment::from_ymd_hms(2015, 1, 1, 24, 0, 0).is_none());
    assert!(Moment::from_ymd_hms(2015, 1, 1, 0, 60, 0).is_none());
    assert!(Moment::from_ymd_hms(2015, 1, 1, 0, 0, 60).is_none());
    assert!(Moment::from_ymd_hms(400_000, 1, 1, 0, 0, 0).is_none());
}

#[test]
fn calendar_range_matches_chrono() {
    assert_eq!(
        Moment::from_ymd_hms(-262_143, 1, 1, 0, 0, 0).unwrap().timestamp(),
        MIN_TIMESTAMP
    );
    assert_eq!(
        Moment::from_ymd_hms(262_142, 12, 31, 23, 59, 59).unwrap().timestamp(),
        MAX_TIMESTAMP
    );
    assert!(Moment::from_timestamp(MIN_TIMESTAMP - 1).is_none());
    assert!(Moment::from_timestamp(MAX_TIMESTAMP + 1).is_none());
    assert_eq!(Moment::from_timestamp(MAX_TIMESTAMP).unwrap().date(), (262_142, 12, 31));
    assert_eq!(Moment::from_timestamp(MIN_TIMESTAMP).unwrap().date(), (-262_143, 1, 1));
}

#[test]
fn date_and_time_of_day() {
    let moment = Moment::from_timestamp(-1).unwrap();
    assert_eq!(moment.date(), (1969, 12, 31));
    assert_eq!(moment.time_of_day(), (23, 59, 59));
    let moment = Moment::from_timestamp(1_408_903_704).unwrap();
    assert_eq!(moment.date(), (2014, 8, 24));
    assert_eq!(moment.time_of_day(), (18, 8, 24));
}

#[test]
fn calendar_moments_keep_their_dates() {
    let moment = Moment::from_ymd_hms(2000, 2, 29, 12, 0, 0).unwrap();
    assert_eq!(moment.date(), (2000, 2, 29));
    assert!(Moment::from_ymd_hms(1900, 2, 29, 0, 0, 0).is_none());
    assert!(Moment::from_ymd_hms(-4, 2, 29, 0, 0, 0).is_some());
    assert!(Moment::from_ymd_hms(2015, 4, 31, 0, 0, 0).is_none());
    assert!(Moment::from_ymd_hms(2015, 1, 0, 0, 0, 0).is_none());
}
