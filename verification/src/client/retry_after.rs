//! The `Retry-After` header: how long to wait before a request is sent again.

use vstd::prelude::*;
use crate::decimal::{all_digits, digits_value, read_digits};
use crate::text::{chars_of, stands_at};

verus! {

/// A moment in universal time, as a calendar date and a time of day.
#[derive(Clone, Copy, Debug, PartialEq, Eq)]
pub struct HttpDate {
    pub year: u16,
    /// 1 for January to 12 for December.
    pub month: u8,
    /// The day of the month, from 1.
    pub day: u8,
    pub hour: u8,
    pub minute: u8,
    /// 0 to 59, or 60 for a leap second.
    pub second: u8,
}

/// The hint of a `Retry-After` header.
#[derive(Clone, Copy, Debug, PartialEq, Eq)]
pub enum RetryAfter {
    /// The number of seconds to wait.
    Delay(u64),
    /// The moment from which the request may be sent again.
    DateTime(HttpDate),
}

/// Whether `s` is one of the seven day names.
pub open spec fn is_day_name(s: Seq<char>) -> bool {
    s == "Mon"@ || s == "Tue"@ || s == "Wed"@ || s == "Thu"@ || s == "Fri"@ || s == "Sat"@ || s
        == "Sun"@
}

/// The number of the month that `s` names, from 1, or 0 if it names none.
pub open spec fn month_number(s: Seq<char>) -> int {
    if s == "Jan"@ {
        1
    } else if s == "Feb"@ {
        2
    } else if s == "Mar"@ {
        3
    } else if s == "Apr"@ {
        4
    } else if s == "May"@ {
        5
    } else if s == "Jun"@ {
        6
    } else if s == "Jul"@ {
        7
    } else if s == "Aug"@ {
        8
    } else if s == "Sep"@ {
        9
    } else if s == "Oct"@ {
        10
    } else if s == "Nov"@ {
        11
    } else if s == "Dec"@ {
        12
    } else {
        0
    }
}

/// Whether `year` has a 29th of February.
pub open spec fn is_leap_year(year: int) -> bool {
    year % 4 == 0 && (year % 100 != 0 || year % 400 == 0)
}

/// The number of days of a month.
pub open spec fn days_in_month(year: int, month: int) -> int {
    if month == 2 {
        if is_leap_year(year) {
            29
        } else {
            28
        }
    } else if month == 4 || month == 6 || month == 9 || month == 11 {
        30
    } else {
        31
    }
}

/// The number of days of a year.
pub open spec fn days_in_year(year: int) -> int {
    if is_leap_year(year) {
        366
    } else {
        365
    }
}

/// The number of days from the first day of the year 0 to the first day of
/// `year`.
pub open spec fn days_before_year(year: int) -> int
    decreases year,
{
    if year <= 0 {
        0
    } else {
        days_before_year(year - 1) + days_in_year(year - 1)
    }
}

/// The number of days from the first day of `year` to the first day of its
/// month `month`.
pub open spec fn days_before_month(year: int, month: int) -> int
    decreases month,
{
    if month <= 1 {
        0
    } else {
        days_before_month(year, month - 1) + days_in_month(year, month - 1)
    }
}

/// The number of days from 1 January 1970 to a day.
pub open spec fn days_since_epoch(year: int, month: int, day: int) -> int {
    days_before_year(year) + days_before_month(year, month) + (day - 1) - days_before_year(1970)
}

/// The number that the characters `s[from..to]` denote, if all are digits.
pub open spec fn number_at(s: Seq<char>, from: int, to: int) -> Option<nat> {
    if all_digits(s.subrange(from, to)) {
        Some(digits_value(s.subrange(from, to)))
    } else {
        None
    }
}

/// The date that `s` denotes, if it is a date in the fixed-length format of
/// HTTP, such as `Sun, 06 Nov 1994 08:49:37 GMT`: a day name, a comma, the day
/// of the month in two digits, the month's name, the year in four digits, the
/// time of day as `hh:mm:ss`, and `GMT`, each part separated from the next by one
/// space. The day must exist in that month of that year. The day name is not
/// held against the date.
pub open spec fn http_date_of(s: Seq<char>) -> Option<HttpDate> {
    if s.len() == 29 && is_day_name(s.subrange(0, 3)) && s.subrange(3, 5) == ", "@
        && s.subrange(7, 8) == " "@ && s.subrange(11, 12) == " "@ && s.subrange(16, 17) == " "@
        && s.subrange(19, 20) == ":"@ && s.subrange(22, 23) == ":"@ && s.subrange(25, 29)
        == " GMT"@ {
        let month = month_number(s.subrange(8, 11));
        match (
            number_at(s, 5, 7),
            number_at(s, 12, 16),
            number_at(s, 17, 19),
            number_at(s, 20, 22),
            number_at(s, 23, 25),
        ) {
            (Some(day), Some(year), Some(hour), Some(minute), Some(second)) => {
                if 1 <= month && 1 <= day <= days_in_month(year as int, month) && hour <= 23
                    && minute <= 59 && second <= 60 && year <= 9999 {
                    Some(
                        HttpDate {
                            year: year as u16,
                            month: month as u8,
                            day: day as u8,
                            hour: hour as u8,
                            minute: minute as u8,
                            second: second as u8,
                        },
                    )
                } else {
                    None
                }
            },
            _ => None,
        }
    } else {
        None
    }
}

/// The hint that the value `s` of a `Retry-After` header gives: a number of
/// seconds if `s` is a sequence of digits, a moment if it is a date, and none
/// otherwise.
pub open spec fn retry_after_of(s: Seq<char>) -> Option<RetryAfter> {
    if s.len() > 0 && all_digits(s) && digits_value(s) <= u64::MAX {
        Some(RetryAfter::Delay(digits_value(s) as u64))
    } else {
        match http_date_of(s) {
            Some(date) => Some(RetryAfter::DateTime(date)),
            None => None,
        }
    }
}

/// A header that holds a number of seconds in decimal notation gives that
/// delay.
pub proof fn law_delay_in_seconds(seconds: u64)
    ensures
        retry_after_of(crate::decimal::decimal(seconds as int)) == Some(RetryAfter::Delay(seconds)),
{
    crate::decimal::lemma_digits(seconds as nat);
}

/// Whether a day name stands at the start of `chars`.
fn day_name_at_start(chars: &Vec<char>) -> (r: bool)
    requires
        chars.len() >= 3,
    ensures
        r == is_day_name(chars@.subrange(0, 3)),
{
    proof {
        reveal_strlit("Mon");
        reveal_strlit("Tue");
        reveal_strlit("Wed");
        reveal_strlit("Thu");
        reveal_strlit("Fri");
        reveal_strlit("Sat");
        reveal_strlit("Sun");
    }
    stands_at(chars, 0, "Mon") || stands_at(chars, 0, "Tue") || stands_at(chars, 0, "Wed")
        || stands_at(chars, 0, "Thu") || stands_at(chars, 0, "Fri") || stands_at(chars, 0, "Sat")
        || stands_at(chars, 0, "Sun")
}

/// The number of the month whose name stands at position 8 of `chars`, or 0.
fn month_at(chars: &Vec<char>) -> (r: u8)
    requires
        chars.len() >= 11,
    ensures
        r == month_number(chars@.subrange(8, 11)),
{
    proof {
        reveal_strlit("Jan");
        reveal_strlit("Feb");
        reveal_strlit("Mar");
        reveal_strlit("Apr");
        reveal_strlit("May");
        reveal_strlit("Jun");
        reveal_strlit("Jul");
        reveal_strlit("Aug");
        reveal_strlit("Sep");
        reveal_strlit("Oct");
        reveal_strlit("Nov");
        reveal_strlit("Dec");
    }
    if stands_at(chars, 8, "Jan") {
        1
    } else if stands_at(chars, 8, "Feb") {
        2
    } else if stands_at(chars, 8, "Mar") {
        3
    } else if stands_at(chars, 8, "Apr") {
        4
    } else if stands_at(chars, 8, "May") {
        5
    } else if stands_at(chars, 8, "Jun") {
        6
    } else if stands_at(chars, 8, "Jul") {
        7
    } else if stands_at(chars, 8, "Aug") {
        8
    } else if stands_at(chars, 8, "Sep") {
        9
    } else if stands_at(chars, 8, "Oct") {
        10
    } else if stands_at(chars, 8, "Nov") {
        11
    } else if stands_at(chars, 8, "Dec") {
        12
    } else {
        0
    }
}

/// The number of days of a month.
fn month_length(year: u64, month: u8) -> (r: u64)
    ensures
        r == days_in_month(year as int, month as int),
{
    if month == 2 {
        if year % 4 == 0 && (year % 100 != 0 || year % 400 == 0) {
            29
        } else {
            28
        }
    } else if month == 4 || month == 6 || month == 9 || month == 11 {
        30
    } else {
        31
    }
}

/// Reads the digits `chars[from..to]`.
fn digits_at(chars: &Vec<char>, from: usize, to: usize) -> (r: Option<u64>)
    requires
        from < to <= chars.len(),
        to - from <= 4,
    ensures
        r matches Some(v) ==> number_at(chars@, from as int, to as int) == Some(v as nat),
        r is None ==> number_at(chars@, from as int, to as int) is None,
{
    let r = read_digits(chars, from, to);
    proof {
        let piece = chars@.subrange(from as int, to as int);
        if all_digits(piece) {
            lemma_short_number(piece);
        }
    }
    r
}

/// A number of at most four digits is below ten thousand.
proof fn lemma_short_number(s: Seq<char>)
    requires
        all_digits(s),
        s.len() <= 4,
    ensures
        digits_value(s) <= 9999,
    decreases s.len(),
{
    if s.len() > 0 {
        let shorter = s.drop_last();
        assert forall|k: int| 0 <= k < shorter.len() implies crate::decimal::is_digit(
            #[trigger] shorter[k],
        ) by {
            assert(shorter[k] == s[k]);
        }
        lemma_short_number_bound(shorter);
        assert(crate::decimal::is_digit(s.last()));
    }
}

/// A number of `n` digits, for `n` up to three, is below the `n`th power of ten.
proof fn lemma_short_number_bound(s: Seq<char>)
    requires
        all_digits(s),
        s.len() <= 3,
    ensures
        s.len() == 0 ==> digits_value(s) == 0,
        s.len() == 1 ==> digits_value(s) <= 9,
        s.len() == 2 ==> digits_value(s) <= 99,
        s.len() == 3 ==> digits_value(s) <= 999,
    decreases s.len(),
{
    if s.len() > 0 {
        let shorter = s.drop_last();
        assert forall|k: int| 0 <= k < shorter.len() implies crate::decimal::is_digit(
            #[trigger] shorter[k],
        ) by {
            assert(shorter[k] == s[k]);
        }
        lemma_short_number_bound(shorter);
        assert(crate::decimal::is_digit(s.last()));
    }
}

/// The number of days from the first day of the year 0 to the first day of
/// `year`, in closed form: 365 for each year, and one more for each leap year.
proof fn lemma_days_before_year(year: int)
    requires
        0 <= year,
    ensures
        days_before_year(year) == 365 * year + if year == 0 {
            0
        } else {
            (year - 1) / 4 - (year - 1) / 100 + (year - 1) / 400 + 1
        },
    decreases year,
{
    if year > 0 {
        lemma_days_before_year(year - 1);
    }
}

/// The number of days from the first day of the year 0 to the first day of
/// `year`.
fn year_start(year: u16) -> (r: i64)
    ensures
        r == days_before_year(year as int),
        0 <= r <= 24000000,
{
    proof {
        lemma_days_before_year(year as int);
    }
    if year == 0 {
        0
    } else {
        let y: i64 = (year - 1) as i64;
        365 * (year as i64) + y / 4 - y / 100 + y / 400 + 1
    }
}

/// The number of days from the first day of `year` to the first day of its
/// month `month`.
fn month_start(year: u16, month: u8) -> (r: i64)
    ensures
        r == days_before_month(year as int, month as int),
        0 <= r <= 31 * 255,
{
    let mut days: i64 = 0;
    let mut m: u8 = 1;
    while m < month
        invariant
            1 <= m,
            m <= month || (month == 0 && m == 1),
            days == days_before_month(year as int, m as int),
            0 <= days <= 31 * (m - 1),
        decreases month - m,
    {
        days = days + month_length(year as u64, m) as i64;
        m = m + 1;
    }
    days
}

impl HttpDate {
    /// Whether the date exists: a month of the year, a day of that month, and a
    /// time of the day, the 61st second of a minute included.
    pub open spec fn is_valid(&self) -> bool {
        &&& self.year <= 9999
        &&& 1 <= self.month <= 12
        &&& 1 <= self.day <= days_in_month(self.year as int, self.month as int)
        &&& self.hour <= 23
        &&& self.minute <= 59
        &&& self.second <= 60
    }

    /// The number of seconds from the start of 1 January 1970 to this moment,
    /// each day counted as 86400 seconds.
    pub open spec fn seconds_since_epoch(&self) -> int {
        days_since_epoch(self.year as int, self.month as int, self.day as int) * 86400 + self.hour
            * 3600 + self.minute * 60 + self.second
    }

    /// The number of seconds from the start of 1 January 1970 to this moment.
    pub fn unix_seconds(&self) -> (r: i64)
        ensures
            r == self.seconds_since_epoch(),
    {
        proof {
            lemma_days_before_year(1970);
        }
        let days: i64 = year_start(self.year) + month_start(self.year, self.month) + (self.day as i64
            - 1) - 719528;
        days * 86400 + (self.hour as i64) * 3600 + (self.minute as i64) * 60 + (self.second as i64)
    }

    /// Reads a date in the fixed-length format of HTTP.
    pub fn parse(s: &str) -> (r: Option<HttpDate>)
        ensures
            r == http_date_of(s@),
            r matches Some(date) ==> date.is_valid(),
    {
        let chars = chars_of(s);
        Self::read(&chars)
    }

    /// Reads a date in the fixed-length format of HTTP.
    pub fn read(chars: &Vec<char>) -> (r: Option<HttpDate>)
        ensures
            r == http_date_of(chars@),
            r matches Some(date) ==> date.is_valid(),
    {
        if chars.len() != 29 {
            return None;
        }
        proof {
            reveal_strlit(", ");
            reveal_strlit(" ");
            reveal_strlit(":");
            reveal_strlit(" GMT");
        }
        if !(day_name_at_start(chars) && stands_at(chars, 3, ", ") && stands_at(chars, 7, " ")
            && stands_at(chars, 11, " ") && stands_at(chars, 16, " ") && stands_at(chars, 19, ":")
            && stands_at(chars, 22, ":") && stands_at(chars, 25, " GMT")) {
            return None;
        }
        let month = month_at(chars);
        let day = digits_at(chars, 5, 7);
        let year = digits_at(chars, 12, 16);
        let hour = digits_at(chars, 17, 19);
        let minute = digits_at(chars, 20, 22);
        let second = digits_at(chars, 23, 25);
        match (day, year, hour, minute, second) {
            (Some(day), Some(year), Some(hour), Some(minute), Some(second)) => {
                if 1 <= month && 1 <= day && day <= month_length(year, month) && hour <= 23
                    && minute <= 59 && second <= 60 && year <= 9999 {
                    Some(
                        HttpDate {
                            year: year as u16,
                            month,
                            day: day as u8,
                            hour: hour as u8,
                            minute: minute as u8,
                            second: second as u8,
                        },
                    )
                } else {
                    None
                }
            },
            _ => None,
        }
    }
}

impl RetryAfter {
    /// How many seconds there are to wait at the moment `now`, given in seconds
    /// since the start of 1 January 1970: the delay itself, or what is left
    /// until the moment named, which is nothing once it has passed.
    pub open spec fn seconds_from(self, now: int) -> int {
        match self {
            RetryAfter::Delay(seconds) => seconds as int,
            RetryAfter::DateTime(date) => if date.seconds_since_epoch() > now {
                date.seconds_since_epoch() - now
            } else {
                0
            },
        }
    }

    /// How many seconds there are to wait at the moment `now`.
    pub fn wait_from(&self, now: i64) -> (r: u64)
        ensures
            r == self.seconds_from(now as int),
    {
        match self {
            RetryAfter::Delay(seconds) => *seconds,
            RetryAfter::DateTime(date) => {
                let moment = date.unix_seconds();
                if moment > now {
                    ((moment as i128) - (now as i128)) as u64
                } else {
                    0
                }
            },
        }
    }

    /// Reads the value of a `Retry-After` header.
    pub fn parse(s: &str) -> (r: Option<RetryAfter>)
        ensures
            r == retry_after_of(s@),
    {
        let chars = chars_of(s);
        assert(chars@.subrange(0, chars.len() as int) =~= chars@);
        match read_digits(&chars, 0, chars.len()) {
            Some(seconds) => Some(RetryAfter::Delay(seconds)),
            None => match HttpDate::read(&chars) {
                Some(date) => Some(RetryAfter::DateTime(date)),
                None => None,
            },
        }
    }
}

} // verus!
