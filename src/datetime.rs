//! Reading dates out of text: calendar parsing goes to chrono, the choice
//! among the forms a source may use is made here.

use chrono::{Datelike, Timelike};
use vstd::prelude::*;
use crate::attribute::{CalendarDate, Date, Timestamp};
use crate::text::{trim_text, trimmed};

verus! {

/// The UTC instant that an RFC 3339 text denotes, if it is one.
pub uninterp spec fn rfc3339_utc_of(s: Seq<char>) -> Option<Timestamp>;

/// The day that `s` denotes under the chrono format `fmt`, if it does.
pub uninterp spec fn naive_date_of(s: Seq<char>, fmt: Seq<char>) -> Option<CalendarDate>;

/// The instant (read as UTC) that `s` denotes under the chrono format `fmt`, if it does.
pub uninterp spec fn naive_datetime_of(s: Seq<char>, fmt: Seq<char>) -> Option<Timestamp>;

/// Relies on chrono's `DateTime::parse_from_rfc3339`, taken to UTC: the
/// result is a real instant, as chrono's date and time types always are.
#[verifier::external_body]
fn rfc3339_utc(s: &str) -> (r: Option<Timestamp>)
    ensures
        r == rfc3339_utc_of(s@),
        r matches Some(t) ==> t.wf(),
{
    match chrono::DateTime::parse_from_rfc3339(s) {
        Ok(dt) => {
            let n = dt.naive_utc();
            Some(Timestamp { year: n.year(), month: n.month(), day: n.day(), hour: n.hour(), minute: n.minute(), second: n.second() })
        },
        Err(_) => None,
    }
}

/// Relies on chrono's `NaiveDate::parse_from_str`: the result is a day that exists.
#[verifier::external_body]
fn naive_date(s: &str, fmt: &str) -> (r: Option<CalendarDate>)
    ensures
        r == naive_date_of(s@, fmt@),
        r matches Some(d) ==> d.wf(),
{
    match chrono::NaiveDate::parse_from_str(s, fmt) {
        Ok(d) => Some(CalendarDate { year: d.year(), month: d.month(), day: d.day() }),
        Err(_) => None,
    }
}

/// Relies on chrono's `NaiveDateTime::parse_from_str`: the result is a real instant.
#[verifier::external_body]
fn naive_datetime(s: &str, fmt: &str) -> (r: Option<Timestamp>)
    ensures
        r == naive_datetime_of(s@, fmt@),
        r matches Some(t) ==> t.wf(),
{
    match chrono::NaiveDateTime::parse_from_str(s, fmt) {
        Ok(n) => Some(Timestamp { year: n.year(), month: n.month(), day: n.day(), hour: n.hour(), minute: n.minute(), second: n.second() }),
        Err(_) => None,
    }
}

/// The instant of an RFC 3339 text.
pub open spec fn rfc3339_date(s: Seq<char>) -> Option<Date> {
    match rfc3339_utc_of(s) {
        Some(t) => Some(Date::DateTime(t)),
        None => None,
    }
}

/// Reads an RFC 3339 text as an instant.
pub fn parse_date(date_str: &str) -> (r: Option<Date>)
    ensures
        r == rfc3339_date(date_str@),
        r matches Some(d) ==> d.wf(),
{
    match rfc3339_utc(date_str) {
        Some(t) => Some(Date::DateTime(t)),
        None => None,
    }
}

/// Reads a day in the chrono format `fmt`.
pub fn parse_day(s: &str, fmt: &str) -> (r: Option<Date>)
    ensures
        r == match naive_date_of(s@, fmt@) {
            Some(d) => Some(Date::YearMonthDay(d)),
            None => None,
        },
        r matches Some(d) ==> d.wf(),
{
    match naive_date(s, fmt) {
        Some(d) => Some(Date::YearMonthDay(d)),
        None => None,
    }
}

/// Reads an instant in the chrono format `fmt`, as UTC.
pub fn parse_instant(s: &str, fmt: &str) -> (r: Option<Date>)
    ensures
        r == match naive_datetime_of(s@, fmt@) {
            Some(t) => Some(Date::DateTime(t)),
            None => None,
        },
        r matches Some(d) ==> d.wf(),
{
    match naive_datetime(s, fmt) {
        Some(t) => Some(Date::DateTime(t)),
        None => None,
    }
}

/// Whether `c` is an ASCII decimal digit.
pub open spec fn is_digit(c: char) -> bool {
    '0' <= c && c <= '9'
}

/// The value of a string of decimal digits.
pub open spec fn digits_value(s: Seq<char>) -> int
    decreases s.len(),
{
    if s.len() == 0 {
        0
    } else {
        10 * digits_value(s.drop_last()) + (s.last() as int - '0' as int)
    }
}

/// `s` without its leading sign, if it has one.
pub open spec fn unsigned_part(s: Seq<char>) -> Seq<char> {
    if s.len() > 0 && (s[0] == '-' || s[0] == '+') {
        s.drop_first()
    } else {
        s
    }
}

/// The integer that `s` writes, as `str::parse::<i32>` reads it: an optional
/// sign, then one or more decimal digits, within the range of `i32`.
pub open spec fn int_value(s: Seq<char>) -> Option<int> {
    let neg = s.len() > 0 && s[0] == '-';
    let body = unsigned_part(s);
    let v = if neg {
        -digits_value(body)
    } else {
        digits_value(body)
    };
    if body.len() > 0 && (forall|i: int| 0 <= i < body.len() ==> is_digit(#[trigger] body[i]))
        && i32::MIN <= v <= i32::MAX {
        Some(v)
    } else {
        None
    }
}

proof fn lemma_digits_value_grows(s: Seq<char>, i: int)
    requires
        0 <= i <= s.len(),
        forall|k: int| 0 <= k < s.len() ==> is_digit(#[trigger] s[k]),
    ensures
        0 <= digits_value(s.take(i)) <= digits_value(s),
    decreases s.len() - i,
{
    if i < s.len() {
        lemma_digits_value_grows(s, i + 1);
        assert(s.take(i + 1).drop_last() =~= s.take(i));
    } else {
        assert(s.take(i) =~= s);
        lemma_digits_value_nonneg(s);
    }
}

proof fn lemma_digits_value_nonneg(s: Seq<char>)
    requires
        forall|k: int| 0 <= k < s.len() ==> is_digit(#[trigger] s[k]),
    ensures
        digits_value(s) >= 0,
    decreases s.len(),
{
    if s.len() > 0 {
        lemma_digits_value_nonneg(s.drop_last());
    }
}

/// Reads a decimal integer as `str::parse::<i32>` does.
pub fn parse_i32(s: &str) -> (r: Option<i32>)
    ensures
        r matches Some(v) ==> int_value(s@) == Some(v as int),
        r is None ==> int_value(s@) is None,
{
    let n = s.unicode_len();
    let mut i: usize = 0;
    let mut neg = false;
    if n > 0 && s.get_char(0) == '-' {
        neg = true;
        i = 1;
    } else if n > 0 && s.get_char(0) == '+' {
        i = 1;
    }
    let ghost body = s@.subrange(i as int, n as int);
    assert(body =~= unsigned_part(s@));
    assert(neg == (s@.len() > 0 && s@[0] == '-'));
    if i == n {
        return None;
    }
    let start = i;
    let mut acc: i64 = 0;
    while i < n
        invariant
            n == s@.len(),
            start <= i <= n,
            body == s@.subrange(start as int, n as int),
            body == unsigned_part(s@),
            neg == (s@.len() > 0 && s@[0] == '-'),
            forall|k: int| 0 <= k < i - start ==> is_digit(#[trigger] body[k]),
            acc as int == digits_value(body.take(i - start)),
            0 <= acc <= 2147483648,
        decreases n - i,
    {
        let c = s.get_char(i);
        assert(c == body[i - start]);
        if !('0' <= c && c <= '9') {
            assert(!is_digit(body[i - start]));
            return None;
        }
        let d = (c as u32 - '0' as u32) as i64;
        assert(body.take(i - start + 1).drop_last() =~= body.take(i - start));
        acc = acc * 10 + d;
        i = i + 1;
        if acc > 2147483648 {
            proof {
                assert(body.take(i - start).drop_last() =~= body.take(i - start - 1));
                if forall|k: int| 0 <= k < body.len() ==> is_digit(#[trigger] body[k]) {
                    lemma_digits_value_grows(body, i - start);
                }
            }
            return None;
        }
    }
    assert(body.take(n - start) =~= body);
    if neg {
        Some((-acc) as i32)
    } else if acc <= 2147483647 {
        Some(acc as i32)
    } else {
        None
    }
}

/// The part before and the part after the only `-` of `s`, if it has exactly one.
pub open spec fn split_at_dash(s: Seq<char>) -> Option<(Seq<char>, Seq<char>)> {
    if exists|k: int| 0 <= k < s.len() && s[k] == '-' && (forall|j: int|
        0 <= j < s.len() && j != k ==> s[j] != '-') {
        let k = choose|k: int|
            0 <= k < s.len() && s[k] == '-' && (forall|j: int|
                0 <= j < s.len() && j != k ==> s[j] != '-');
        Some((s.take(k), s.skip(k + 1)))
    } else {
        None
    }
}

fn split_dash(s: &str) -> (r: Option<(String, String)>)
    ensures
        match split_at_dash(s@) {
            Some((a, b)) => r matches Some((x, y)) && x@ == a && y@ == b,
            None => r is None,
        },
{
    let n = s.unicode_len();
    let mut found: Option<usize> = None;
    let mut i: usize = 0;
    while i < n
        invariant
            n == s@.len(),
            i <= n,
            match found {
                Some(k) => k < i && s@[k as int] == '-' && forall|j: int|
                    0 <= j < i && j != k ==> s@[j] != '-',
                None => forall|j: int| 0 <= j < i ==> s@[j] != '-',
            },
        decreases n - i,
    {
        if s.get_char(i) == '-' {
            match found {
                Some(k) => {
                    proof {
                        if exists|k2: int| 0 <= k2 < s@.len() && s@[k2] == '-' && (forall|j: int|
                            0 <= j < s@.len() && j != k2 ==> s@[j] != '-') {
                            let k2 = choose|k2: int|
                                0 <= k2 < s@.len() && s@[k2] == '-' && (forall|j: int|
                                    0 <= j < s@.len() && j != k2 ==> s@[j] != '-');
                            if k2 == k {
                                assert(s@[i as int] != '-');
                            } else {
                                assert(s@[k as int] != '-');
                            }
                        }
                    }
                    return None;
                },
                None => {
                    found = Some(i);
                },
            }
        }
        i = i + 1;
    }
    match found {
        Some(k) => {
            proof {
                let k2 = choose|k2: int|
                    0 <= k2 < s@.len() && s@[k2] == '-' && (forall|j: int|
                        0 <= j < s@.len() && j != k2 ==> s@[j] != '-');
                assert(k2 == k);
            }
            Some((String::from_str(s.substring_char(0, k)), String::from_str(s.substring_char(k + 1, n))))
        },
        None => None,
    }
}

/// A date the way extraction answers give it: `YYYY-MM-DD` as a day,
/// `YYYY-MM` (two integers around one dash, seven characters) as a month,
/// four characters that read as an integer as a year.
pub open spec fn ai_date_of(s: Seq<char>) -> Option<Date> {
    match naive_date_of(s, "%Y-%m-%d"@) {
        Some(d) => Some(Date::YearMonthDay(d)),
        None => {
            let month_form = if s.len() == 7 {
                match split_at_dash(s) {
                    Some((a, b)) => match (int_value(a), int_value(b)) {
                        (Some(y), Some(m)) => Some(Date::YearMonth { year: y as i32, month: m as i32 }),
                        _ => None,
                    },
                    None => None,
                }
            } else {
                None
            };
            if month_form is Some {
                month_form
            } else if s.len() == 4 {
                match int_value(s) {
                    Some(y) => Some(Date::Year(y as i32)),
                    None => None,
                }
            } else {
                None
            }
        },
    }
}

/// Reads a date from an extraction answer.
pub fn parse_ai_date(date_str: &str) -> (r: Option<Date>)
    ensures
        r == ai_date_of(date_str@),
        r matches Some(d) ==> d.wf(),
{
    let day = parse_day(date_str, "%Y-%m-%d");
    if day.is_some() {
        return day;
    }
    let n = date_str.unicode_len();
    if n == 7 {
        match split_dash(date_str) {
            Some((a, b)) => match (parse_i32(a.as_str()), parse_i32(b.as_str())) {
                (Some(y), Some(m)) => {
                    return Some(Date::YearMonth { year: y, month: m });
                },
                _ => {},
            },
            None => {},
        }
    }
    if n == 4 {
        match parse_i32(date_str) {
            Some(y) => {
                return Some(Date::Year(y));
            },
            None => {},
        }
    }
    None
}

/// The day-first and month-first formats tried last on Citoid dates.
pub open spec fn citoid_formats() -> Seq<Seq<char>> {
    seq!["%B %d, %Y"@, "%b %d, %Y"@, "%d %B %Y"@, "%d %b %Y"@, "%Y/%m/%d"@, "%m/%d/%Y"@]
}

/// The day given by the first of `fmts` that reads `s`.
pub open spec fn first_format_day(s: Seq<char>, fmts: Seq<Seq<char>>) -> Option<Date>
    decreases fmts.len(),
{
    if fmts.len() == 0 {
        None
    } else {
        match naive_date_of(s, fmts[0]) {
            Some(d) => Some(Date::YearMonthDay(d)),
            None => first_format_day(s, fmts.drop_first()),
        }
    }
}

/// A Citoid date, trimmed and then tried as, in turn: `YYYY-MM-DD`;
/// `YYYY-MM` (read as its first day); RFC 3339; a year from 1000 to 2100;
/// the written-out day formats.
pub open spec fn citoid_date_of(s: Seq<char>) -> Option<Date> {
    let t = trimmed(s);
    match naive_date_of(t, "%Y-%m-%d"@) {
        Some(d) => Some(Date::YearMonthDay(d)),
        None => match naive_date_of(t + "-01"@, "%Y-%m-%d"@) {
            Some(d) => Some(Date::YearMonth { year: d.year, month: d.month as i32 }),
            None => match rfc3339_utc_of(t) {
                Some(ts) => Some(Date::DateTime(ts)),
                None => match int_value(t) {
                    Some(y) => if 1000 <= y <= 2100 {
                        Some(Date::Year(y as i32))
                    } else {
                        first_format_day(t, citoid_formats())
                    },
                    None => first_format_day(t, citoid_formats()),
                },
            },
        },
    }
}

/// Reads a date as Citoid returns it.
pub fn parse_zotero_date(date_str: &str) -> (r: Option<Date>)
    ensures
        r == citoid_date_of(date_str@),
        r matches Some(d) ==> d.wf(),
{
    let t = trim_text(date_str);
    let day = parse_day(t.as_str(), "%Y-%m-%d");
    if day.is_some() {
        return day;
    }
    let padded = t.clone().concat("-01");
    match naive_date(padded.as_str(), "%Y-%m-%d") {
        Some(d) => {
            return Some(Date::YearMonth { year: d.year, month: d.month as i32 });
        },
        None => {},
    }
    let instant = parse_date(t.as_str());
    if instant.is_some() {
        return instant;
    }
    match parse_i32(t.as_str()) {
        Some(y) => {
            if 1000 <= y && y <= 2100 {
                return Some(Date::Year(y));
            }
        },
        None => {},
    }
    let formats = ["%B %d, %Y", "%b %d, %Y", "%d %B %Y", "%d %b %Y", "%Y/%m/%d", "%m/%d/%Y"];
    let mut i: usize = 0;
    proof {
        reveal_strlit("%B %d, %Y");
        reveal_strlit("%b %d, %Y");
        reveal_strlit("%d %B %Y");
        reveal_strlit("%d %b %Y");
        reveal_strlit("%Y/%m/%d");
        reveal_strlit("%m/%d/%Y");
        assert(citoid_formats().skip(0) =~= citoid_formats());
    }
    assert(citoid_date_of(date_str@) == first_format_day(t@, citoid_formats()));
    while i < 6
        invariant
            i <= 6,
            citoid_date_of(date_str@) == first_format_day(t@, citoid_formats()),
            forall|k: int| 0 <= k < 6 ==> (#[trigger] formats@[k])@ == citoid_formats()[k],
            first_format_day(t@, citoid_formats()) == first_format_day(
                t@,
                citoid_formats().skip(i as int),
            ),
        decreases 6 - i,
    {
        let d = parse_day(t.as_str(), formats[i]);
        assert(citoid_formats().skip(i as int)[0] == formats@[i as int]@);
        assert(citoid_formats().skip(i as int).drop_first() =~= citoid_formats().skip(i + 1));
        if d.is_some() {
            return d;
        }
        i = i + 1;
    }
    None
}

} // verus!
