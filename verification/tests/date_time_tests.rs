use chrono::{NaiveDate, NaiveDateTime};
use to_do_app::naive_date_time_wrapper::{
    NaiveDateTimeWrapper, CANONICAL_FORMAT, DISPLAY_FORMAT, ENTRY_FORMAT, ENTRY_SECONDS, MAX_YEAR,
    MIN_YEAR,
};

fn fields(value: &NaiveDateTimeWrapper) -> (i32, u32, u32, u32, u32, u32, u32) {
    (
        value.year(),
        value.month(),
        value.day(),
        value.hour(),
        value.minute(),
        value.second(),
        value.nanosecond(),
    )
}

#[test]
fn entry_with_seconds_appended_parses() {
    let parsed = NaiveDateTimeWrapper::parse_entry("25.12.2024 10:30").unwrap();
    assert_eq!(fields(&parsed), (2024, 12, 25, 10, 30, 0, 0));
    assert_eq!(Some(parsed), NaiveDateTimeWrapper::new(2024, 12, 25, 10, 30, 0));
    let direct = NaiveDateTimeWrapper::parse_from_str("25.12.2024 10:30:00", ENTRY_FORMAT);
    assert_eq!(direct, Ok(parsed));
}

#[test]
fn entry_of_a_day_that_does_not_exist_fails() {
    assert_eq!(NaiveDateTimeWrapper::parse_entry("31.02.2024 10:30"), Err(()));
}

#[test]
fn entry_that_is_blank_or_malformed_fails() {
    assert_eq!(NaiveDateTimeWrapper::parse_entry(""), Err(()));
    assert_eq!(NaiveDateTimeWrapper::parse_entry("tomorrow"), Err(()));
    assert_eq!(NaiveDateTimeWrapper::parse_entry("25.12.2024"), Err(()));
    assert_eq!(NaiveDateTimeWrapper::parse_entry("25.12.2024 10:30:15"), Err(()));
    assert_eq!(NaiveDateTimeWrapper::parse_entry("25.12.2024 24:00"), Err(()));
    assert_eq!(NaiveDateTimeWrapper::parse_entry("2024-12-25 10:30"), Err(()));
}

#[test]
fn parse_agrees_with_chrono_under_the_two_formats() {
    let texts = [
        "2015-09-05 23:56:04",
        "2015-07-01 08:59:60",
        "2015-07-01 08:59:61",
        "+10000-09-09 01:46:39",
        "10000-09-09 01:46:39",
        "-0004-02-29 00:00:00",
        "+262142-12-31 23:59:59",
        "+262143-01-01 00:00:00",
        "-262143-01-01 00:00:00",
        "-262144-12-31 23:59:59",
        "+2147483647-01-01 00:00:00",
        "-2147483648-01-01 00:00:00",
        "+99999999999999999999-01-01 00:00:00",
        " 2015-09-05  23:56:04",
        "2015-9-5 3:06:04",
        "2015-09-05 23:56:04 ",
        "2015-09-05T23:56:04",
        "29.02.2023 10:00:00",
        "29.02.2024 10:00:00",
        "05.09.2015 23:56:04",
        "5.9.2015 23:56:60",
        "01.01.+262142 00:00:00",
        "01.01.-2147483648 00:00:00",
        "",
        "x",
    ];
    for format in [CANONICAL_FORMAT, ENTRY_FORMAT] {
        for text in texts {
            let ours = NaiveDateTimeWrapper::parse_from_str(text, format).ok();
            let theirs = NaiveDateTime::parse_from_str(text, format).ok();
            assert_eq!(ours.is_some(), theirs.is_some(), "reading {:?}", text);
            if let (Some(ours), Some(theirs)) = (ours, theirs) {
                assert_eq!(ours.to_string(), theirs.to_string());
                assert_eq!(ours.format(DISPLAY_FORMAT), Some(theirs.to_string()));
            }
        }
    }
}

#[test]
fn parse_refuses_every_other_format() {
    let cases = [
        ("2015-07-01 08:59:59.250", "%Y-%m-%d %H:%M:%S%.f"),
        ("94/9/4 7:15", "%y/%m/%d %H:%M"),
        ("2015-09-05", "%Y-%m-%d"),
        ("2015-09-05 23:56:04", "%Y-%m-%d %H:%M:%S "),
        ("2015-09-05 23:56:04", "%Q"),
        ("2015 01 1 00:00", "%G %V %u %H:%M"),
        ("-2147483648 01 1 00:00", "%G %V %u %H:%M"),
        ("", ""),
    ];
    for (text, format) in cases {
        assert_eq!(NaiveDateTimeWrapper::parse_from_str(text, format), Err(()));
    }
}

#[test]
fn leap_second_is_second_59_with_a_full_nanosecond() {
    let parsed = NaiveDateTimeWrapper::from_str("2015-06-30 23:59:60").unwrap();
    assert_eq!(fields(&parsed), (2015, 6, 30, 23, 59, 59, 1_000_000_000));
    assert_eq!(parsed.to_string(), "2015-06-30 23:59:60");
    assert_eq!(parsed.format(CANONICAL_FORMAT), Some("2015-06-30 23:59:60".to_string()));
}

#[test]
fn from_str_reads_the_stored_form_only() {
    let parsed = NaiveDateTimeWrapper::from_str("2024-12-25 10:30:00");
    assert_eq!(parsed.ok(), NaiveDateTimeWrapper::new(2024, 12, 25, 10, 30, 0));
    assert_eq!(NaiveDateTimeWrapper::from_str(""), Err(()));
    assert_eq!(NaiveDateTimeWrapper::from_str("25.12.2024 10:30:00"), Err(()));
    assert_eq!(NaiveDateTimeWrapper::from_str("2024-12-25T10:30:00"), Err(()));
    assert_eq!(NaiveDateTimeWrapper::from_str("2024-13-25 10:30:00"), Err(()));
}

#[test]
fn to_string_is_the_stored_form() {
    let value = NaiveDateTimeWrapper::new(2024, 12, 25, 10, 30, 0).unwrap();
    assert_eq!(value.to_string(), "2024-12-25 10:30:00");
    let early = NaiveDateTimeWrapper::new(987, 1, 2, 3, 4, 5).unwrap();
    assert_eq!(early.to_string(), "0987-01-02 03:04:05");
    let theirs = NaiveDate::from_ymd_opt(987, 1, 2).unwrap().and_hms_opt(3, 4, 5).unwrap();
    assert_eq!(early.to_string(), theirs.to_string());
}

#[test]
fn to_string_is_format_under_the_display_format() {
    let texts = [
        "2024-12-25 10:30:00",
        "2016-12-31 23:59:60",
        "2016-12-31 10:30:60",
        "+123456-01-01 00:00:00",
        "-0044-03-15 12:00:00",
        "0000-01-01 00:00:00",
    ];
    for text in texts {
        let value = NaiveDateTimeWrapper::from_str(text).unwrap();
        assert_eq!(Some(value.to_string()), value.format(DISPLAY_FORMAT), "showing {:?}", text);
        assert_eq!(value.to_string(), text);
    }
    let value = NaiveDateTimeWrapper::new(2024, 12, 25, 10, 30, 7).unwrap();
    assert_eq!(value.format("%Y-%m-%d %H:%M:%S%.3f"), Some("2024-12-25 10:30:07.000".to_string()));
}

#[test]
fn stored_form_is_format_under_the_canonical_format() {
    let value = NaiveDateTimeWrapper::new(2024, 12, 25, 10, 30, 7).unwrap();
    assert_eq!(value.to_stored_form(), "2024-12-25 10:30:07");
    assert_eq!(Some(value.to_stored_form()), value.format(CANONICAL_FORMAT));
    let leap = NaiveDateTimeWrapper::from_str("2016-12-31 23:59:60").unwrap();
    assert_eq!(leap.to_stored_form(), "2016-12-31 23:59:60");
    assert_eq!(leap.nanosecond(), 1_000_000_000);
    assert_eq!(leap.second(), 59);
}

#[test]
fn entry_is_read_with_the_seconds_put_behind_it() {
    assert_eq!(ENTRY_SECONDS, ":00");
    for text in ["25.12.2024 10:30", "1.2.2024 3:04", "25.12.2024 10", "", "x"] {
        let completed = format!("{}{}", text, ENTRY_SECONDS);
        assert_eq!(
            NaiveDateTimeWrapper::parse_entry(text),
            NaiveDateTimeWrapper::parse_from_str(&completed, ENTRY_FORMAT)
        );
    }
    assert_eq!(
        NaiveDateTimeWrapper::parse_entry("1.2.2024 3:04").ok(),
        NaiveDateTimeWrapper::new(2024, 2, 1, 3, 4, 0)
    );
}

#[test]
fn format_writes_under_the_given_format() {
    let value = NaiveDateTimeWrapper::new(2024, 12, 25, 10, 30, 7).unwrap();
    assert_eq!(value.format(CANONICAL_FORMAT), Some("2024-12-25 10:30:07".to_string()));
    assert_eq!(value.format(ENTRY_FORMAT), Some("25.12.2024 10:30:07".to_string()));
    assert_eq!(value.format("%H h"), Some("10 h".to_string()));
    assert_eq!(value.format(""), Some(String::new()));
}

#[test]
fn format_that_cannot_be_written_gives_nothing() {
    let value = NaiveDateTimeWrapper::new(2024, 12, 25, 10, 30, 7).unwrap();
    assert_eq!(value.format("%Q"), None);
    assert_eq!(value.format("%"), None);
    assert_eq!(value.format("%Y %z"), None);
}

#[test]
fn stored_form_reads_back() {
    let values = [
        (2024, 12, 25, 10, 30, 0),
        (2000, 2, 29, 0, 0, 0),
        (1, 1, 1, 23, 59, 59),
        (0, 6, 15, 12, 0, 1),
        (9999, 12, 31, 23, 59, 59),
        (10000, 1, 1, 0, 0, 0),
        (-1, 3, 4, 5, 6, 7),
        (MAX_YEAR, 12, 31, 23, 59, 59),
        (MIN_YEAR, 1, 1, 0, 0, 0),
    ];
    for (year, month, day, hour, minute, second) in values {
        let value = NaiveDateTimeWrapper::new(year, month, day, hour, minute, second).unwrap();
        let text = value.format(CANONICAL_FORMAT).unwrap();
        assert_eq!(NaiveDateTimeWrapper::from_str(&text), Ok(value), "reading {:?}", text);
    }
}

#[test]
fn new_admits_what_chrono_admits() {
    let years = [MIN_YEAR - 1, MIN_YEAR, -400, -100, -4, -1, 0, 1, 4, 100, 400, 1900, 2000, 2023,
        2024, 2100, MAX_YEAR, MAX_YEAR + 1, i32::MIN, i32::MAX];
    let days = [0u32, 1, 27, 28, 29, 30, 31, 32, u32::MAX];
    for year in years {
        for month in 0..=13u32 {
            for day in days {
                let ours = NaiveDateTimeWrapper::new(year, month, day, 12, 0, 0);
                let theirs = NaiveDate::from_ymd_opt(year, month, day);
                assert_eq!(ours.is_some(), theirs.is_some(), "{}-{}-{}", year, month, day);
                if let Some(ours) = ours {
                    assert_eq!(fields(&ours), (year, month, day, 12, 0, 0, 0));
                    let theirs = theirs.unwrap().and_hms_opt(12, 0, 0).unwrap();
                    assert_eq!(ours.to_string(), theirs.to_string());
                }
            }
        }
    }
}

#[test]
fn new_admits_the_times_of_a_day() {
    let ok = [(0u32, 0u32, 0u32), (23, 59, 59), (12, 30, 15)];
    for (hour, minute, second) in ok {
        assert!(NaiveDateTimeWrapper::new(2024, 5, 6, hour, minute, second).is_some());
    }
    let bad = [(24u32, 0u32, 0u32), (0, 60, 0), (0, 0, 60), (u32::MAX, 0, 0), (0, u32::MAX, 0),
        (0, 0, u32::MAX)];
    for (hour, minute, second) in bad {
        assert!(NaiveDateTimeWrapper::new(2024, 5, 6, hour, minute, second).is_none());
    }
}
