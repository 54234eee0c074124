use smart_door_lock::status::HttpStatus;
use smart_door_lock::text::{joined, push_decimal, push_signed_decimal, same_text};
use smart_door_lock::time::{Timestamp, MAX_SECONDS, MIN_SECONDS};

fn at(seconds: i64, nanos: u32) -> Timestamp {
    Timestamp::new(seconds, nanos).unwrap()
}

#[test]
fn log_text_writes_month_day_and_time() {
    assert_eq!(at(0, 0).log_text(), "01-01 00:00:00");
    assert_eq!(at(86_399, 999_999_999).log_text(), "01-01 23:59:59");
    assert_eq!(at(86_400, 0).log_text(), "01-02 00:00:00");
    assert_eq!(at(1_431_648_000, 0).log_text(), "05-15 00:00:00");
    assert_eq!(at(1_725_029_869, 7).log_text(), "08-30 14:57:49");
}

#[test]
fn log_text_knows_leap_days() {
    assert_eq!(at(951_782_400, 0).log_text(), "02-29 00:00:00");
    assert_eq!(at(1_709_164_800, 0).log_text(), "02-29 00:00:00");
    assert_eq!(at(4_107_542_400, 0).log_text(), "03-01 00:00:00");
    assert_eq!(at(4_107_542_399, 0).log_text(), "02-28 23:59:59");
}

#[test]
fn log_text_counts_back_before_the_epoch() {
    assert_eq!(at(-1, 0).log_text(), "12-31 23:59:59");
    assert_eq!(at(-86_400, 0).log_text(), "12-31 00:00:00");
}

#[test]
fn moments_end_where_the_calendar_ends() {
    assert_eq!(at(MIN_SECONDS, 0).log_text(), "01-01 00:00:00");
    assert_eq!(at(MAX_SECONDS, 999_999_999).log_text(), "12-31 23:59:59");
    assert!(Timestamp::new(MIN_SECONDS - 1, 0).is_none());
    assert!(Timestamp::new(MAX_SECONDS + 1, 0).is_none());
    assert!(Timestamp::new(0, 1_000_000_000).is_none());
    assert!(chrono::DateTime::from_timestamp(MIN_SECONDS, 0).is_some());
    assert!(chrono::DateTime::from_timestamp(MIN_SECONDS - 1, 0).is_none());
    assert!(chrono::DateTime::from_timestamp(MAX_SECONDS, 999_999_999).is_some());
    assert!(chrono::DateTime::from_timestamp(MAX_SECONDS + 1, 0).is_none());
}

#[test]
fn log_text_agrees_with_the_calendar_day_by_day() {
    let lengths = [31, 28, 31, 30, 31, 30, 31, 31, 30, 31, 30, 31];
    let mut day: i64 = 0;
    for year in 1970..2405 {
        let leap = year % 4 == 0 && (year % 100 != 0 || year % 400 == 0);
        for month in 0..12 {
            let length = lengths[month] + if month == 1 && leap { 1 } else { 0 };
            for d in 0..length {
                let expected = format!("{:02}-{:02} 00:00:01", month + 1, d + 1);
                assert_eq!(at(day * 86_400 + 1, 0).log_text(), expected);
                day += 1;
            }
        }
    }
}

#[test]
fn now_follows_the_system_clock() {
    let before = chrono::Utc::now();
    let now = Timestamp::now();
    let after = chrono::Utc::now();
    let read = (now.seconds(), now.nanos());
    assert!((before.timestamp(), before.timestamp_subsec_nanos()) <= read);
    assert!(read <= (after.timestamp(), after.timestamp_subsec_nanos()));
    assert!(now.seconds() > 1_700_000_000);
}

#[test]
fn status_success_is_the_two_hundreds() {
    for code in 100..1000u16 {
        let status = HttpStatus::new(code).unwrap();
        assert_eq!(status.code(), code);
        assert_eq!(status.is_success(), (200..300).contains(&code));
    }
    assert!(HttpStatus::new(99).is_none());
    assert!(HttpStatus::new(1000).is_none());
    assert!(HttpStatus::new(0).is_none());
}

#[test]
fn status_text_is_number_and_phrase() {
    assert_eq!(HttpStatus::new(200).unwrap().text(), "200 OK");
    assert_eq!(HttpStatus::new(404).unwrap().text(), "404 Not Found");
    assert_eq!(HttpStatus::new(503).unwrap().text(), "503 Service Unavailable");
    assert_eq!(HttpStatus::new(999).unwrap().text(), "999 <unknown status code>");
    assert_eq!(HttpStatus::bad_request().text(), "400 Bad Request");
}

#[test]
fn numbers_are_written_in_decimal() {
    for n in [0u64, 1, 9, 10, 11, 99, 100, 12_345_678_901, u64::MAX] {
        let mut out = String::from("n=");
        push_decimal(&mut out, n);
        assert_eq!(out, format!("n={}", n));
    }
    for i in [0i64, 7, -1, -10, -99, i64::MAX, i64::MIN] {
        let mut out = String::from("i=");
        push_signed_decimal(&mut out, i);
        assert_eq!(out, format!("i={}", i));
    }
}

#[test]
fn texts_are_joined_and_told_apart() {
    assert_eq!(joined("🟢 ", "Zoë"), "🟢 Zoë");
    assert_eq!(joined("", ""), "");
    assert!(same_text("photo", "photo"));
    assert!(!same_text("photo", "Photo"));
    assert!(!same_text("photo", "photos"));
}
