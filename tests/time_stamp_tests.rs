use stamp_member::moment::Moment;
use stamp_member::time_entities::time_stamp::{
    TimeStamp, ERROR_MSG_ALREADY_FINISHED, ERROR_MSG_ALREADY_PAUSED, ERROR_MSG_NOT_PAUSED,
    NOT_AVAILABLE,
};
use stamp_member::time_entities::time_stamp_errors::{ResumeError, StopError};

fn utc(year: i32, month: u32, day: u32, hour: u32, minute: u32, second: u32) -> Moment {
    Moment::from_ymd_hms(year, month, day, hour, minute, second).unwrap()
}

fn hours_later(moment: Moment, hours: i64) -> Moment {
    Moment::from_timestamp(moment.timestamp() + hours * 3_600).unwrap()
}

fn setup_finish() -> (TimeStamp, Moment) {
    let started = utc(2012, 8, 8, 2, 2, 2);
    let actual_data = TimeStamp::with_started("2 Hours later ...", started);
    let expected_ended = hours_later(started, 2);

    (actual_data, expected_ended)
}

#[test]
fn time_stamp_tests_should_finish_on_2_hours_later() {
    let (mut actual_data, expected_ended) = setup_finish();

    match actual_data.finish(expected_ended) {
        Ok(ended_time) => assert_eq!(expected_ended, ended_time),
        Err(_) => panic!("Failure on finished time stamp"),
    };
}

#[test]
fn time_stamp_tests_should_return_error_on_already_finished() {
    // Set up
    let (mut actual_data, expected_ended) = setup_finish();
    actual_data.finish(expected_ended).unwrap();
    // Change current time and see if ended time remains the same
    let later = hours_later(expected_ended, 2);

    // Act
    match actual_data.finish(later) {
        // Assert
        Ok(_) => panic!("Should return error on already ended time stamp"),
        Err(actual_time) => assert_eq!(
            expected_ended, actual_time,
            "Should still have the same ended time"
        ),
    }
}

#[test]
fn time_stamp_tests_should_convert_to_str_vec() {
    let title = "To vec";
    let started = utc(2014, 8, 24, 18, 8, 24);
    let actual_data = TimeStamp::with_started(title, started);

    let actual_vec = actual_data.to_str_vec();

    assert_eq!(
        actual_vec,
        vec![
            title.to_string(),
            "On 08.24.2014 at 18:08:24".to_string(),
            NOT_AVAILABLE.to_string(),
            "no".to_string(),
            NOT_AVAILABLE.to_string(),
        ]
    );
}

#[test]
fn time_stamp_tests_should_convert_to_right_format_from_data() {
    let time = utc(2014, 7, 8, 22, 45, 21);

    let actual_text_format = TimeStamp::time_to_str(time);
    const EXPECTED: &str = "On 07.08.2014 at 22:45:21";
    assert_eq!(EXPECTED, actual_text_format);
}

#[test]
fn time_stamp_tests_should_return_table_for_time_stamps() {
    let input = vec![
        TimeStamp::with_started("1. Line with more content", utc(2018, 2, 1, 14, 12, 24)),
        TimeStamp::with_started("2. Line with more content", utc(2022, 2, 1, 12, 32, 34)),
    ];

    let actual_table = TimeStamp::create_text_table_from_time_stamps(&input).unwrap();
    let expected =
    "Title                      Started at                 Ended at  Is paused  Last time paused  
1. Line with more content  On 02.01.2018 at 14:12:24  N/A       no         N/A               
2. Line with more content  On 02.01.2022 at 12:32:34  N/A       no         N/A               
"
    .to_string();
    for (expected_side, actual_side) in expected.lines().zip(actual_table.lines()) {
        assert_eq!(expected_side, actual_side);
    }
    assert_eq!(expected, actual_table);
}

#[test]
fn should_pause_time_stamp() {
    let start_moment = utc(2000, 2, 1, 2, 1, 1);
    let mut to_stop = TimeStamp::with_started("To stop.", start_moment);
    let expected_paused_time = hours_later(start_moment, 2);
    let result = to_stop.pause(expected_paused_time);

    match result {
        Ok(paused) => assert_eq!(
            expected_paused_time, paused,
            "Paused time did not match expected paused time."
        ),
        Err(_) => panic!("Should not return error on pausing an unpaused/unfinished time stamps"),
    }
}

#[test]
fn should_return_error_pausing_on_already_paused() {
    let start_moment = utc(2000, 2, 1, 2, 1, 1);
    let mut to_stop = TimeStamp::with_started("To stop.", start_moment);
    let after_paused_time = hours_later(start_moment, 2);
    _ = to_stop.pause(start_moment);

    let result = to_stop.pause(after_paused_time);
    match result {
        Ok(_) => panic!("Should return an error for pausing an already paused one."),
        Err(paused) => {
            match paused.error_kind {
                StopError::IsStoppedAlready(paused) => assert_eq!(paused, start_moment),
                _ => panic!("Should return {} as error.", "IsStoppedAlready"),
            }

            let message = paused.get_error_msg();
            assert_eq!(ERROR_MSG_ALREADY_PAUSED, message)
        }
    }
}

#[test]
fn should_return_error_pausing_on_already_finished() {
    let start_moment = utc(2000, 2, 1, 2, 1, 1);
    let mut to_stop = TimeStamp::with_started("To stop.", start_moment);

    to_stop.finish(start_moment).unwrap();

    let result = to_stop.pause(hours_later(start_moment, 1000));
    match result {
        Ok(_) => panic!("Should return an error for pausing an already finished one."),
        Err(paused) => {
            match paused.error_kind {
                StopError::IsFinishedAlready(paused) => assert_eq!(paused, start_moment),
                _ => panic!("Should return {} as error.", "IsFinishedAlready"),
            }

            let message = paused.get_error_msg();
            assert_eq!(ERROR_MSG_ALREADY_FINISHED, message)
        }
    }
}

#[test]
fn resume_ends_a_pause_and_keeps_its_moment() {
    let start_moment = utc(2000, 2, 1, 2, 1, 1);
    let paused_at = hours_later(start_moment, 1);
    let mut stamp = TimeStamp::with_started("Work", start_moment);
    stamp.pause(paused_at).unwrap();
    assert!(stamp.is_paused);
    stamp.resume().unwrap();
    assert!(!stamp.is_paused);
    assert_eq!(stamp.last_paused, Some(paused_at));
    // It can be paused again, which replaces the moment of the last pause.
    let again = hours_later(start_moment, 3);
    assert_eq!(stamp.pause(again).unwrap(), again);
    assert_eq!(stamp.last_paused, Some(again));
}

#[test]
fn resume_is_refused_when_running_or_finished() {
    let start_moment = utc(2000, 2, 1, 2, 1, 1);
    let mut stamp = TimeStamp::with_started("Work", start_moment);
    let error = stamp.resume().unwrap_err();
    assert_eq!(error.error_kind, ResumeError::IsRunningAlready);
    assert_eq!(error.get_error_msg(), ERROR_MSG_NOT_PAUSED);

    let ended = hours_later(start_moment, 5);
    stamp.finish(ended).unwrap();
    let error = stamp.resume().unwrap_err();
    assert_eq!(error.error_kind, ResumeError::IsFinishedAlready(ended));
    assert_eq!(error.get_error_msg(), ERROR_MSG_ALREADY_FINISHED);
}

#[test]
fn finish_ends_a_pause() {
    let start_moment = utc(2000, 2, 1, 2, 1, 1);
    let mut stamp = TimeStamp::with_started("Work", start_moment);
    stamp.pause(hours_later(start_moment, 1)).unwrap();
    let ended = hours_later(start_moment, 2);
    assert_eq!(stamp.finish(ended), Ok(ended));
    assert!(!stamp.is_paused);
    assert_eq!(stamp.ended, Some(ended));
    // A second finish, later, still answers with the first end.
    assert_eq!(stamp.finish(hours_later(start_moment, 9)), Err(ended));
    assert_eq!(stamp.ended, Some(ended));
}

#[test]
fn row_of_finished_paused_history() {
    let start_moment = utc(2014, 8, 24, 18, 8, 24);
    let mut stamp = TimeStamp::with_started("Done", start_moment);
    stamp.pause(utc(2014, 8, 24, 19, 0, 5)).unwrap();
    stamp.finish(utc(2015, 1, 2, 3, 4, 5)).unwrap();
    assert_eq!(
        stamp.to_str_vec(),
        vec![
            "Done".to_string(),
            "On 08.24.2014 at 18:08:24".to_string(),
            "On 01.02.2015 at 03:04:05".to_string(),
            "no".to_string(),
            "On 08.24.2014 at 19:00:05".to_string(),
        ]
    );
    let mut paused = TimeStamp::with_started("Held", start_moment);
    paused.pause(start_moment).unwrap();
    assert_eq!(paused.to_str_vec()[3], "yes");
}

#[test]
fn title_is_trimmed() {
    let stamp = TimeStamp::with_started("  Padded title \t", utc(2000, 1, 1, 0, 0, 0));
    assert_eq!(stamp.title, "Padded title");
    let stamp = TimeStamp::new("\u{3000}\u{85} inner  space\u{2029}\n", utc(2000, 1, 1, 0, 0, 0));
    assert_eq!(stamp.title, "inner  space");
    let stamp = TimeStamp::new(" \t ", utc(2000, 1, 1, 0, 0, 0));
    assert_eq!(stamp.title, "");
}

#[test]
fn moment_before_the_epoch_and_long_ago() {
    assert_eq!(
        TimeStamp::time_to_str(utc(1969, 12, 31, 23, 59, 59)),
        "On 12.31.1969 at 23:59:59"
    );
    assert_eq!(TimeStamp::time_to_str(utc(5, 3, 4, 1, 2, 3)), "On 03.04.5 at 01:02:03");
    assert_eq!(TimeStamp::time_to_str(utc(-44, 3, 15, 12, 0, 0)), "On 03.15.-44 at 12:00:00");
}

#[test]
fn parts_that_contradict_each_other_are_refused() {
    let started = utc(2000, 1, 1, 0, 0, 0);
    assert!(TimeStamp::from_parts("a".to_string(), started, None, true, None).is_none());
    assert!(TimeStamp::from_parts("a".to_string(), started, Some(started), true, Some(started)).is_none());
    let out_of_range = Moment { secs: i64::MAX };
    assert!(TimeStamp::from_parts("a".to_string(), out_of_range, None, false, None).is_none());
    let stamp = TimeStamp::from_parts("a".to_string(), started, None, true, Some(started)).unwrap();
    assert!(stamp.is_paused);
}

#[test]
fn time_stamp_should_convert_to_right_format_from_data() {
    let time = utc(2014, 7, 8, 22, 45, 21);

    let actual_text_format = TimeStamp::time_to_str(time);
    const EXPECTED: &str = "On 07.08.2014 at 22:45:21";
    assert_eq!(EXPECTED, actual_text_format);
}
