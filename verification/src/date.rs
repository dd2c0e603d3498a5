//! Calendar dates written `dd/mm/yyyy`.
use vstd::prelude::*;
use vstd::utf8::encode_utf8;
use vstd::utf8::{is_ascii_chars, is_ascii_chars_encode_utf8};
use crate::number::{
    spec_parse_u32, parse_u32_chars, all_digits, decimal_value, is_digit, decimal_digits,
    lemma_decimal_digits, lemma_decimal_digits_short,
};
use crate::text::{find, find_from, chars_of, opt_view, lemma_find_char};

verus! {

/// Message given when a date is not three numbers separated by `/`.
pub const DATE_FORMAT_MESSAGE: &'static str = "Sai định dạng dd/mm/yyyy, vui lòng nhập lại";

/// Message given when the three numbers are not a day of the calendar.
pub const DATE_INVALID_MESSAGE: &'static str = "Ngày không hợp lệ, vui lòng nhập lại";

pub open spec fn is_leap_year(year: u32) -> bool {
    (year % 4 == 0 && year % 100 != 0) || year % 400 == 0
}

/// The number of days of `month` in `year` (0 for a month outside 1..=12).
pub open spec fn days_in_month(month: u32, year: u32) -> u32 {
    if month == 1 || month == 3 || month == 5 || month == 7 || month == 8 || month == 10
        || month == 12 {
        31
    } else if month == 4 || month == 6 || month == 9 || month == 11 {
        30
    } else if month == 2 {
        if is_leap_year(year) { 29 } else { 28 }
    } else {
        0
    }
}

/// `day/month/year` is a day of the Gregorian calendar, from year 1 on.
pub open spec fn is_valid_date(day: u32, month: u32, year: u32) -> bool {
    year >= 1 && 1 <= month <= 12 && 1 <= day <= days_in_month(month, year)
}

/// Whether `day/month/year` is a day of the calendar.
pub fn check_date(day: u32, month: u32, year: u32) -> (r: bool)
    ensures
        r == is_valid_date(day, month, year),
{
    if year < 1 || month < 1 || month > 12 || day < 1 {
        return false;
    }
    let days_in_month: u32 = match month {
        1 | 3 | 5 | 7 | 8 | 10 | 12 => 31,
        4 | 6 | 9 | 11 => 30,
        2 => if (year % 4 == 0 && year % 100 != 0) || (year % 400 == 0) { 29 } else { 28 },
        _ => return false,
    };
    day <= days_in_month
}

/// The pieces of `s` cut at its first two `/` (what `s.splitn(3, '/')` yields).
pub open spec fn split_at_slashes(s: Seq<char>) -> Seq<Seq<char>> {
    match find(s, seq!['/']) {
        None => seq![s],
        Some(i) => {
            let rest = s.skip(i + 1);
            match find(rest, seq!['/']) {
                None => seq![s.take(i), rest],
                Some(j) => seq![s.take(i), rest.take(j), rest.skip(j + 1)],
            }
        },
    }
}

/// The `k`-th number of the date, 0 where the date has fewer pieces.
pub open spec fn date_field(pieces: Seq<Seq<char>>, k: int) -> u32 {
    if k < pieces.len() {
        match spec_parse_u32(pieces[k]) {
            Some(v) => v,
            None => 0,
        }
    } else {
        0
    }
}

/// Every piece of the date is a number.
pub open spec fn date_pieces_parse(pieces: Seq<Seq<char>>) -> bool {
    forall|k: int| 0 <= k < pieces.len() ==> (#[trigger] spec_parse_u32(pieces[k])) is Some
}

/// The verdict on a date entered as `dd/mm/yyyy`: `None` when it is accepted,
/// else the message that says why not. Dates longer than ten bytes are refused.
pub open spec fn date_verdict(s: Seq<char>) -> Option<Seq<char>> {
    if encode_utf8(s).len() > 10 {
        Some(DATE_FORMAT_MESSAGE@)
    } else {
        date_fields_verdict(s)
    }
}

/// The verdict on the pieces of a date, whatever its length.
pub open spec fn date_fields_verdict(s: Seq<char>) -> Option<Seq<char>> {
    let pieces = split_at_slashes(s);
    if !date_pieces_parse(pieces) {
        Some(DATE_FORMAT_MESSAGE@)
    } else if !is_valid_date(date_field(pieces, 0), date_field(pieces, 1), date_field(pieces, 2)) {
        Some(DATE_INVALID_MESSAGE@)
    } else {
        None
    }
}

/// What is wrong with a date.
#[derive(Clone, Copy, Debug, PartialEq, Eq, Structural)]
pub enum DateProblem {
    /// It is not three numbers separated by `/`.
    Format,
    /// The numbers are not a day of the calendar.
    Invalid,
}

/// The message that tells the user of a problem.
pub open spec fn problem_message(p: Option<DateProblem>) -> Option<Seq<char>> {
    match p {
        None => None,
        Some(DateProblem::Format) => Some(DATE_FORMAT_MESSAGE@),
        Some(DateProblem::Invalid) => Some(DATE_INVALID_MESSAGE@),
    }
}

/// The verdict once the pieces of the date have been read as numbers.
fn verdict_of_fields(day: u32, month: u32, year: u32) -> (r: Option<DateProblem>)
    ensures
        problem_message(r) == (if is_valid_date(day, month, year) { None } else { Some(DATE_INVALID_MESSAGE@) }),
{
    if !check_date(day, month, year) {
        Some(DateProblem::Invalid)
    } else {
        None
    }
}

fn format_error() -> (r: Option<DateProblem>)
    ensures
        problem_message(r) == Some(DATE_FORMAT_MESSAGE@),
{
    Some(DateProblem::Format)
}

/// The message for a problem, as a string.
fn message_of(p: Option<DateProblem>) -> (r: Option<String>)
    ensures
        opt_view(r) == problem_message(p),
{
    match p {
        None => None,
        Some(DateProblem::Format) => Some(String::from_str(DATE_FORMAT_MESSAGE)),
        Some(DateProblem::Invalid) => Some(String::from_str(DATE_INVALID_MESSAGE)),
    }
}

/// Checks a date written `dd/mm/yyyy`: `None` when it is a valid date, else the reason.
pub fn validate_date(date: &str) -> (r: Option<String>)
    ensures
        opt_view(r) == date_verdict(date@),
{
    if date.as_bytes().len() > 10 {
        return message_of(format_error());
    }
    message_of(check_date_fields(date))
}

/// Checks the pieces of a date written `dd/mm/yyyy`, whatever its length.
pub fn check_date_fields(date: &str) -> (r: Option<DateProblem>)
    ensures
        problem_message(r) == date_fields_verdict(date@),
{
    let chars = chars_of(date);
    let n = chars.len();
    let slash: Vec<char> = vec!['/'];
    let ghost s = date@;
    let ghost pieces = split_at_slashes(s);
    assert(chars@.skip(0) =~= s);
    assert(slash@ =~= seq!['/']);
    match find_from(&chars, 0, &slash) {
        None => {
            assert(pieces =~= seq![s]);
            assert(s =~= chars@.subrange(0, n as int));
            let d = match parse_u32_chars(&chars, 0, n) {
                Some(v) => v,
                None => {
                    assert(!date_pieces_parse(pieces)) by {
                        assert(spec_parse_u32(pieces[0]) is None);
                    }
                    return format_error();
                },
            };
            assert(date_pieces_parse(pieces));
            assert(date_field(pieces, 0) == d && date_field(pieces, 1) == 0 && date_field(pieces, 2) == 0);
            verdict_of_fields(d, 0, 0)
        },
        Some(i) => {
            let ghost rest = s.skip(i + 1);
            assert(chars@.skip(i + 1) =~= rest);
            assert(s.take(i as int) =~= chars@.subrange(0, i as int));
            match find_from(&chars, i + 1, &slash) {
                None => {
                    assert(pieces =~= seq![s.take(i as int), rest]);
                    assert(rest =~= chars@.subrange(i + 1, n as int));
                    let d = match parse_u32_chars(&chars, 0, i) {
                        Some(v) => v,
                        None => {
                            assert(!date_pieces_parse(pieces)) by {
                                assert(spec_parse_u32(pieces[0]) is None);
                            }
                            return format_error();
                        },
                    };
                    let m = match parse_u32_chars(&chars, i + 1, n) {
                        Some(v) => v,
                        None => {
                            assert(!date_pieces_parse(pieces)) by {
                                assert(spec_parse_u32(pieces[1]) is None);
                            }
                            return format_error();
                        },
                    };
                    assert(date_pieces_parse(pieces)) by {
                        assert(spec_parse_u32(pieces[0]) is Some);
                        assert(spec_parse_u32(pieces[1]) is Some);
                    }
                    assert(date_field(pieces, 0) == d && date_field(pieces, 1) == m && date_field(pieces, 2) == 0);
                    verdict_of_fields(d, m, 0)
                },
                Some(j) => {
                    assert(pieces =~= seq![s.take(i as int), rest.take(j as int), rest.skip(j + 1)]);
                    assert(rest.take(j as int) =~= chars@.subrange(i + 1, i + 1 + j));
                    assert(rest.skip(j + 1) =~= chars@.subrange(i + 2 + j, n as int));
                    let d = match parse_u32_chars(&chars, 0, i) {
                        Some(v) => v,
                        None => {
                            assert(!date_pieces_parse(pieces)) by {
                                assert(spec_parse_u32(pieces[0]) is None);
                            }
                            return format_error();
                        },
                    };
                    let m = match parse_u32_chars(&chars, i + 1, i + 1 + j) {
                        Some(v) => v,
                        None => {
                            assert(!date_pieces_parse(pieces)) by {
                                assert(spec_parse_u32(pieces[1]) is None);
                            }
                            return format_error();
                        },
                    };
                    let y = match parse_u32_chars(&chars, i + 2 + j, n) {
                        Some(v) => v,
                        None => {
                            assert(!date_pieces_parse(pieces)) by {
                                assert(spec_parse_u32(pieces[2]) is None);
                            }
                            return format_error();
                        },
                    };
                    assert(date_pieces_parse(pieces)) by {
                        assert(spec_parse_u32(pieces[0]) is Some);
                        assert(spec_parse_u32(pieces[1]) is Some);
                        assert(spec_parse_u32(pieces[2]) is Some);
                    }
                    assert(date_field(pieces, 0) == d && date_field(pieces, 1) == m && date_field(pieces, 2) == y);
                    verdict_of_fields(d, m, y)
                },
            }
        },
    }
}

/// February 29th exists exactly in leap years.
pub proof fn lemma_leap_day(year: u32)
    ensures
        is_valid_date(29, 2, year) <==> (year >= 1 && is_leap_year(year)),
{
}

/// Every month has 28 to 31 days, and its first 28 days always exist.
pub proof fn lemma_month_lengths(day: u32, month: u32, year: u32)
    requires
        1 <= month <= 12,
    ensures
        28 <= days_in_month(month, year) <= 31,
        year >= 1 && 1 <= day <= 28 ==> is_valid_date(day, month, year),
        day > 31 ==> !is_valid_date(day, month, year),
{
}

/// Three runs of digits joined by `/`.
pub open spec fn joined_date(ds: Seq<char>, ms: Seq<char>, ys: Seq<char>) -> Seq<char> {
    ds + seq!['/'] + ms + seq!['/'] + ys
}

proof fn lemma_digits_parse(ds: Seq<char>)
    requires
        ds.len() > 0,
        all_digits(ds),
        decimal_value(ds) <= u32::MAX,
    ensures
        spec_parse_u32(ds) == Some(decimal_value(ds) as u32),
{
    assert(is_digit(ds[0]));
}

/// A date written as three runs of digits separated by `/`, ten characters at
/// most, is accepted exactly when its numbers are a day of the calendar.
pub proof fn lemma_written_date_verdict(ds: Seq<char>, ms: Seq<char>, ys: Seq<char>)
    requires
        ds.len() > 0 && ms.len() > 0 && ys.len() > 0,
        all_digits(ds) && all_digits(ms) && all_digits(ys),
        decimal_value(ds) <= u32::MAX && decimal_value(ms) <= u32::MAX && decimal_value(ys) <= u32::MAX,
        ds.len() + ms.len() + ys.len() <= 8,
    ensures
        date_verdict(joined_date(ds, ms, ys)) == (if is_valid_date(
            decimal_value(ds) as u32,
            decimal_value(ms) as u32,
            decimal_value(ys) as u32,
        ) {
            None
        } else {
            Some(DATE_INVALID_MESSAGE@)
        }),
{
    let s = joined_date(ds, ms, ys);
    let n1 = ds.len() as int;
    let n2 = ms.len() as int;
    assert(is_ascii_chars(s)) by {
        assert forall|i: int| 0 <= i < s.len() implies '\0' <= #[trigger] s[i] <= '\u{7f}' by {
            if i < n1 {
                assert(is_digit(ds[i]));
            } else if i == n1 {
            } else if i < n1 + 1 + n2 {
                assert(s[i] == ms[i - n1 - 1]);
                assert(is_digit(ms[i - n1 - 1]));
            } else if i == n1 + 1 + n2 {
            } else {
                assert(s[i] == ys[i - n1 - 2 - n2]);
                assert(is_digit(ys[i - n1 - 2 - n2]));
            }
        }
    }
    is_ascii_chars_encode_utf8(s);
    assert forall|j: int| 0 <= j < n1 implies s[j] != '/' by {
        assert(is_digit(ds[j]));
    }
    lemma_find_char(s, '/', n1);
    let rest = s.skip(n1 + 1);
    assert(rest =~= ms + seq!['/'] + ys);
    assert forall|j: int| 0 <= j < n2 implies rest[j] != '/' by {
        assert(is_digit(ms[j]));
    }
    lemma_find_char(rest, '/', n2);
    let pieces = split_at_slashes(s);
    assert(s.take(n1) =~= ds);
    assert(rest.take(n2) =~= ms);
    assert(rest.skip(n2 + 1) =~= ys);
    assert(pieces =~= seq![ds, ms, ys]);
    lemma_digits_parse(ds);
    lemma_digits_parse(ms);
    lemma_digits_parse(ys);
    assert(date_pieces_parse(pieces));
}

/// Every day of the calendar up to year 9999, written `d/m/y`, is accepted.
pub proof fn lemma_valid_dates_accepted(day: u32, month: u32, year: u32)
    requires
        is_valid_date(day, month, year),
        year <= 9999,
    ensures
        date_verdict(joined_date(
            decimal_digits(day as nat),
            decimal_digits(month as nat),
            decimal_digits(year as nat),
        )) is None,
{
    lemma_decimal_digits(day as nat);
    lemma_decimal_digits(month as nat);
    lemma_decimal_digits(year as nat);
    lemma_decimal_digits_short(day as nat);
    lemma_decimal_digits_short(month as nat);
    lemma_decimal_digits_short(year as nat);
    lemma_written_date_verdict(
        decimal_digits(day as nat),
        decimal_digits(month as nat),
        decimal_digits(year as nat),
    );
}

/// The days of the Gregorian calendar: January, March, May, July, August,
/// October and December have 31 days, April, June, September and November 30,
/// February 29 in a year divisible by 4 but not by 100, or by 400, else 28;
/// years start at 1.
pub open spec fn gregorian_day(day: u32, month: u32, year: u32) -> bool {
    let length = if month == 1 || month == 3 || month == 5 || month == 7 || month == 8
        || month == 10 || month == 12 {
        31int
    } else if month == 4 || month == 6 || month == 9 || month == 11 {
        30int
    } else if month == 2 && ((year % 4 == 0 && year % 100 != 0) || year % 400 == 0) {
        29int
    } else if month == 2 {
        28int
    } else {
        0int
    };
    year >= 1 && 1 <= day && day <= length
}

/// `check_date` accepts exactly the days of the Gregorian calendar, whose
/// month lengths are these.
pub proof fn lemma_check_date_is_gregorian(day: u32, month: u32, year: u32)
    ensures
        is_valid_date(day, month, year) <==> gregorian_day(day, month, year),
        days_in_month(1, year) == 31 && days_in_month(3, year) == 31,
        days_in_month(5, year) == 31 && days_in_month(7, year) == 31,
        days_in_month(8, year) == 31 && days_in_month(10, year) == 31,
        days_in_month(12, year) == 31,
        days_in_month(4, year) == 30 && days_in_month(6, year) == 30,
        days_in_month(9, year) == 30 && days_in_month(11, year) == 30,
        days_in_month(2, year) == (if (year % 4 == 0 && year % 100 != 0) || year % 400 == 0 {
            29u32
        } else {
            28u32
        }),
        year >= 1 && 1 <= month <= 12 && 1 <= day <= 28 ==> is_valid_date(day, month, year),
{
}

/// A date typed as `d/m/y` (digits, up to year 9999) is accepted exactly when
/// it is a day of the Gregorian calendar, and refused as an invalid day otherwise.
pub proof fn lemma_typed_date_verdict(day: u32, month: u32, year: u32)
    requires
        1 <= month <= 12,
        1 <= day <= 99,
        year <= 9999,
    ensures
        date_verdict(joined_date(
            decimal_digits(day as nat),
            decimal_digits(month as nat),
            decimal_digits(year as nat),
        )) == (if gregorian_day(day, month, year) {
            None
        } else {
            Some(DATE_INVALID_MESSAGE@)
        }),
{
    lemma_decimal_digits(day as nat);
    lemma_decimal_digits(month as nat);
    lemma_decimal_digits(year as nat);
    lemma_decimal_digits_short(day as nat);
    lemma_decimal_digits_short(month as nat);
    lemma_decimal_digits_short(year as nat);
    lemma_written_date_verdict(
        decimal_digits(day as nat),
        decimal_digits(month as nat),
        decimal_digits(year as nat),
    );
    lemma_check_date_is_gregorian(day, month, year);
}

} // verus!
