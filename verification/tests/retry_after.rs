use fcm::{HttpDate, RetryAfter};

fn date(year: u16, month: u8, day: u8, hour: u8, minute: u8, second: u8) -> HttpDate {
    HttpDate { year, month, day, hour, minute, second }
}

#[test]
fn delay_in_seconds() {
    assert_eq!(RetryAfter::parse("30"), Some(RetryAfter::Delay(30)));
    assert_eq!(RetryAfter::parse("0"), Some(RetryAfter::Delay(0)));
    assert_eq!(RetryAfter::parse("007"), Some(RetryAfter::Delay(7)));
    assert_eq!(RetryAfter::parse("18446744073709551615"), Some(RetryAfter::Delay(u64::MAX)));
}

#[test]
fn delay_that_does_not_fit_is_no_hint() {
    assert_eq!(RetryAfter::parse("18446744073709551616"), None);
    assert_eq!(RetryAfter::parse("99999999999999999999999999999"), None);
}

#[test]
fn what_is_neither_a_delay_nor_a_date_is_no_hint() {
    assert_eq!(RetryAfter::parse(""), None);
    assert_eq!(RetryAfter::parse(" 30"), None);
    assert_eq!(RetryAfter::parse("30 "), None);
    assert_eq!(RetryAfter::parse("+30"), None);
    assert_eq!(RetryAfter::parse("-30"), None);
    assert_eq!(RetryAfter::parse("3.5"), None);
    assert_eq!(RetryAfter::parse("٣٠"), None);
    assert_eq!(RetryAfter::parse("tomorrow"), None);
}

#[test]
fn date_in_the_fixed_format() {
    assert_eq!(
        RetryAfter::parse("Sun, 06 Nov 1994 08:49:37 GMT"),
        Some(RetryAfter::DateTime(date(1994, 11, 6, 8, 49, 37)))
    );
    assert_eq!(HttpDate::parse("Fri, 31 Dec 1999 23:59:59 GMT"), Some(date(1999, 12, 31, 23, 59, 59)));
    assert_eq!(HttpDate::parse("Mon, 01 Jan 0000 00:00:00 GMT"), Some(date(0, 1, 1, 0, 0, 0)));
    assert_eq!(HttpDate::parse("Fri, 31 Dec 9999 23:59:60 GMT"), Some(date(9999, 12, 31, 23, 59, 60)));
}

#[test]
fn every_month_name() {
    let names = ["Jan", "Feb", "Mar", "Apr", "May", "Jun", "Jul", "Aug", "Sep", "Oct", "Nov", "Dec"];
    for (i, name) in names.iter().enumerate() {
        let text = format!("Tue, 15 {} 2022 10:20:30 GMT", name);
        assert_eq!(HttpDate::parse(&text), Some(date(2022, i as u8 + 1, 15, 10, 20, 30)));
    }
}

#[test]
fn every_day_name() {
    for name in ["Mon", "Tue", "Wed", "Thu", "Fri", "Sat", "Sun"] {
        let text = format!("{}, 15 Mar 2022 10:20:30 GMT", name);
        assert_eq!(HttpDate::parse(&text), Some(date(2022, 3, 15, 10, 20, 30)));
    }
    assert_eq!(HttpDate::parse("Xyz, 15 Mar 2022 10:20:30 GMT"), None);
    assert_eq!(HttpDate::parse("mon, 15 Mar 2022 10:20:30 GMT"), None);
}

#[test]
fn the_day_must_exist() {
    assert_eq!(HttpDate::parse("Tue, 29 Feb 2024 00:00:00 GMT"), Some(date(2024, 2, 29, 0, 0, 0)));
    assert_eq!(HttpDate::parse("Tue, 29 Feb 2023 00:00:00 GMT"), None);
    assert_eq!(HttpDate::parse("Tue, 29 Feb 2000 00:00:00 GMT"), Some(date(2000, 2, 29, 0, 0, 0)));
    assert_eq!(HttpDate::parse("Tue, 29 Feb 1900 00:00:00 GMT"), None);
    assert_eq!(HttpDate::parse("Tue, 30 Feb 2024 00:00:00 GMT"), None);
    assert_eq!(HttpDate::parse("Tue, 31 Apr 2024 00:00:00 GMT"), None);
    assert_eq!(HttpDate::parse("Tue, 30 Apr 2024 00:00:00 GMT"), Some(date(2024, 4, 30, 0, 0, 0)));
    assert_eq!(HttpDate::parse("Tue, 31 Jun 2024 00:00:00 GMT"), None);
    assert_eq!(HttpDate::parse("Tue, 31 Sep 2024 00:00:00 GMT"), None);
    assert_eq!(HttpDate::parse("Tue, 31 Nov 2024 00:00:00 GMT"), None);
    assert_eq!(HttpDate::parse("Tue, 32 Jan 2024 00:00:00 GMT"), None);
    assert_eq!(HttpDate::parse("Tue, 00 Jan 2024 00:00:00 GMT"), None);
    assert_eq!(HttpDate::parse("Tue, 31 Jan 2024 00:00:00 GMT"), Some(date(2024, 1, 31, 0, 0, 0)));
}

#[test]
fn the_time_must_exist() {
    assert_eq!(HttpDate::parse("Tue, 15 Mar 2022 24:00:00 GMT"), None);
    assert_eq!(HttpDate::parse("Tue, 15 Mar 2022 23:60:00 GMT"), None);
    assert_eq!(HttpDate::parse("Tue, 15 Mar 2022 23:59:61 GMT"), None);
    assert_eq!(HttpDate::parse("Tue, 15 Mar 2022 23:59:60 GMT"), Some(date(2022, 3, 15, 23, 59, 60)));
}

#[test]
fn the_format_is_fixed() {
    assert_eq!(HttpDate::parse("Tue, 15 Mar 2022 10:20:30 UTC"), None);
    assert_eq!(HttpDate::parse("Tue, 15 Mar 2022 10:20:30 gmt"), None);
    assert_eq!(HttpDate::parse("Tue, 15 Mar 2022 10:20:30 GMT "), None);
    assert_eq!(HttpDate::parse("Tue, 15 Mar 2022 10:20:30"), None);
    assert_eq!(HttpDate::parse("Tue 15 Mar 2022 10:20:30 GMT"), None);
    assert_eq!(HttpDate::parse("Tue, 5 Mar 2022 10:20:30 GMT"), None);
    assert_eq!(HttpDate::parse("Tue, 15 Mar 22 10:20:30 GMT"), None);
    assert_eq!(HttpDate::parse("Tue, 15 Mar 2022 10-20-30 GMT"), None);
    assert_eq!(HttpDate::parse("Tue, 15 Mar 2022 1a:20:30 GMT"), None);
    assert_eq!(HttpDate::parse("Tue, 15 Mär 2022 10:20:30 GMT"), None);
    assert_eq!(HttpDate::parse("Tuesday, 15-Mar-22 10:20:30 GMT"), None);
    assert_eq!(HttpDate::parse("Tue Mar 15 10:20:30 2022"), None);
    assert_eq!(HttpDate::parse(""), None);
}

#[test]
fn seconds_since_the_epoch() {
    assert_eq!(date(1970, 1, 1, 0, 0, 0).unix_seconds(), 0);
    assert_eq!(date(1969, 12, 31, 23, 59, 59).unix_seconds(), -1);
    assert_eq!(date(1994, 11, 6, 8, 49, 37).unix_seconds(), 784111777);
    assert_eq!(date(2015, 10, 21, 7, 28, 0).unix_seconds(), 1445412480);
    assert_eq!(date(2000, 2, 29, 0, 0, 0).unix_seconds(), 951782400);
    assert_eq!(date(2000, 3, 1, 0, 0, 0).unix_seconds(), 951868800);
    assert_eq!(date(2038, 1, 19, 3, 14, 8).unix_seconds(), 2147483648);
    assert_eq!(date(9999, 12, 31, 23, 59, 59).unix_seconds(), 253402300799);
    assert_eq!(date(0, 1, 1, 0, 0, 0).unix_seconds(), -62167219200);
}

#[test]
fn a_leap_second_is_the_start_of_the_next_minute() {
    assert_eq!(date(2016, 12, 31, 23, 59, 60).unix_seconds(), 1483228800);
    assert_eq!(date(2017, 1, 1, 0, 0, 0).unix_seconds(), 1483228800);
}

#[test]
fn seconds_to_wait() {
    assert_eq!(RetryAfter::Delay(30).wait_from(0), 30);
    assert_eq!(RetryAfter::Delay(30).wait_from(i64::MAX), 30);
    assert_eq!(RetryAfter::Delay(u64::MAX).wait_from(5), u64::MAX);
    let then = RetryAfter::DateTime(date(1994, 11, 6, 8, 49, 37));
    assert_eq!(then.wait_from(784111777 - 10), 10);
    assert_eq!(then.wait_from(784111777), 0);
    assert_eq!(then.wait_from(784111777 + 10), 0);
    assert_eq!(then.wait_from(i64::MIN), 784111777u64 + (1u64 << 63));
}

#[test]
fn a_parsed_header_says_how_long_to_wait() {
    assert_eq!(RetryAfter::parse("30").unwrap().wait_from(1_700_000_000), 30);
    let hint = RetryAfter::parse("Wed, 21 Oct 2015 07:28:00 GMT").unwrap();
    assert_eq!(hint.wait_from(1445412480 - 120), 120);
}
