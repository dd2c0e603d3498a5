//! Checks with fixed rules, which need no business rules: a phone number is
//! ten characters that read as a number, an e-mail address has a name and a
//! domain with a dot, a date is three numbers separated by `/` of any length.
use vstd::prelude::*;
use vstd::utf8::encode_utf8;
use crate::date::{check_date_fields, DateProblem, date_fields_verdict, DATE_FORMAT_MESSAGE, DATE_INVALID_MESSAGE};
use crate::number::{parse_i32, spec_parse_i32};
use crate::text::{chars_of, find, find_from, opt_view};

verus! {

pub const PHONE_NOT_NUMBER_MESSAGE: &'static str = "Số điện thoại phải là số, vui long nhập lại.";

pub const PHONE_LENGTH_MESSAGE: &'static str = "Số điện thoại phải có 10 chữ số, vui lòng nhập lại.";

pub const EMAIL_INVALID_MESSAGE: &'static str = "Email không hợp lệ vui lòng nhập lại";

/// The view of an optional static message.
pub open spec fn opt_str_view(m: Option<&'static str>) -> Option<Seq<char>> {
    match m {
        Some(s) => Some(s@),
        None => None,
    }
}

/// A phone number must read as an `i32` and be ten bytes long.
pub open spec fn phone_verdict(phone: Seq<char>) -> Option<Seq<char>> {
    if spec_parse_i32(phone) is None {
        Some(PHONE_NOT_NUMBER_MESSAGE@)
    } else if encode_utf8(phone).len() != 10 {
        Some(PHONE_LENGTH_MESSAGE@)
    } else {
        None
    }
}

/// An e-mail address is accepted when its first `@` has a name before it and,
/// after it, a domain that holds a `.`.
pub open spec fn email_is_valid(email: Seq<char>) -> bool {
    match find(email, seq!['@']) {
        None => false,
        Some(i) => i > 0 && i + 1 < email.len() && find(email.skip(i + 1), seq!['.']) is Some,
    }
}

/// Student ids are taken as they are.
pub fn validate_id(id: &str) -> (r: Option<&'static str>)
    ensures
        r is None,
{
    None
}

/// Checks a phone number: ten characters that read as a number.
pub fn validate_phone(phone: &str) -> (r: Option<&'static str>)
    ensures
        opt_str_view(r) == phone_verdict(phone@),
{
    if parse_i32(phone).is_none() {
        Some(PHONE_NOT_NUMBER_MESSAGE)
    } else if phone.as_bytes().len() != 10 {
        Some(PHONE_LENGTH_MESSAGE)
    } else {
        None
    }
}

/// Checks an e-mail address: a name, `@`, and a domain with a dot.
pub fn validate_email(email: &str) -> (r: Option<&'static str>)
    ensures
        r is None <==> email_is_valid(email@),
        r matches Some(m) ==> m@ == EMAIL_INVALID_MESSAGE@,
{
    let chars = chars_of(email);
    let at: Vec<char> = vec!['@'];
    let dot: Vec<char> = vec!['.'];
    assert(at@ =~= seq!['@']);
    assert(dot@ =~= seq!['.']);
    assert(chars@.skip(0) =~= email@);
    let valid = match find_from(&chars, 0, &at) {
        None => false,
        Some(i) => {
            if i == 0 || i + 1 >= chars.len() {
                false
            } else {
                assert(chars@.skip(i + 1) =~= email@.skip(i + 1));
                find_from(&chars, i + 1, &dot).is_some()
            }
        },
    };
    if valid {
        None
    } else {
        Some(EMAIL_INVALID_MESSAGE)
    }
}

/// The verdict on a date of any length.
pub open spec fn date_verdict(date: Seq<char>) -> Option<Seq<char>> {
    date_fields_verdict(date)
}

/// Checks a date written `dd/mm/yyyy`, whatever its length.
pub fn validate_date(date: &str) -> (r: Option<&'static str>)
    ensures
        opt_str_view(r) == date_verdict(date@),
{
    match check_date_fields(date) {
        None => None,
        Some(DateProblem::Format) => Some(DATE_FORMAT_MESSAGE),
        Some(DateProblem::Invalid) => Some(DATE_INVALID_MESSAGE),
    }
}

} // verus!
