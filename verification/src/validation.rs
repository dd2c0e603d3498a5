//! The checks run on what the user types in for a student's fields.
use vstd::prelude::*;
use crate::business_config::{
    BusinessRule, match_verdict, phone_regex_of, phone_body, validate_email_domain, validate_phone_number_pattern,
    EMAIL_DOMAIN_PATTERN, EMAIL_DOMAIN_MESSAGE, PHONE_RULE_PATTERN, PHONE_RULE_MESSAGE,
};
use crate::date::{date_verdict, validate_date};
use crate::regex_support::{regex_compiles, regex_is_match, regex_new, regex_matches, regex_escape, escaped};
use crate::text::{opt_view, push_char, trimmed};

verus! {

pub const PHONE_MESSAGE: &'static str = "Số điện thoại không hợp lệ, vui lòng nhập lại.";

pub const EMAIL_PATTERN_PREFIX: &'static str = "^[a-zA-Z0-9._%+-]+@";

pub const EMAIL_MESSAGE_PREFIX: &'static str = "Email phải thuộc tên miền ";

/// The regex an e-mail address must match when the domain `domain` is enforced.
pub open spec fn email_pattern(domain: Seq<char>) -> Seq<char> {
    EMAIL_PATTERN_PREFIX@ + escaped(domain) + seq!['$']
}

/// The message for an e-mail address outside the domain `domain`.
pub open spec fn email_message(domain: Seq<char>) -> Seq<char> {
    EMAIL_MESSAGE_PREFIX@ + domain
}

/// What the phone-number check answers under `rules`.
pub open spec fn phone_verdict(rules: BusinessRule, phone: Seq<char>) -> Option<Seq<char>> {
    match rules.phone_regex_view() {
        None => None,
        Some(p) => match_verdict(p, phone, PHONE_MESSAGE@),
    }
}

/// What the e-mail check answers under `rules`.
pub open spec fn email_verdict(rules: BusinessRule, email: Seq<char>) -> Option<Seq<char>> {
    match rules.email_view() {
        None => None,
        Some(d) => match_verdict(email_pattern(d), email, email_message(d)),
    }
}

/// Student ids are taken as they are.
pub fn validate_id(id: &str) -> (r: Option<String>)
    ensures
        r is None,
{
    None
}

/// Checks a phone number against the enforced phone-number pattern, if any.
pub fn validate_phone(rules: &BusinessRule, phone: &str) -> (r: Option<String>)
    requires
        rules.phone_pattern_ok(),
        rules.phone_regex_view() matches Some(p) ==> regex_compiles(p),
    ensures
        opt_view(r) == phone_verdict(*rules, phone@),
{
    let pattern = match rules.phone_regex() {
        None => {
            return None;
        },
        Some(p) => p,
    };
    match regex_new(pattern.as_str()) {
        Ok(re) => {
            if regex_matches(&re, phone) {
                None
            } else {
                Some(String::from_str(PHONE_MESSAGE))
            }
        },
        Err(_) => {
            proof {
                assert(false);
            }
            None
        },
    }
}

/// The regex for e-mail addresses in `domain`.
fn email_regex(domain: &String) -> (r: String)
    ensures
        r@ == email_pattern(domain@),
{
    let mut pattern = String::from_str(EMAIL_PATTERN_PREFIX);
    let esc = regex_escape(domain.as_str());
    pattern.append(esc.as_str());
    push_char(&mut pattern, '$');
    pattern
}

/// Checks an e-mail address against the enforced domain, if any.
pub fn validate_email(rules: &BusinessRule, email: &str) -> (r: Option<String>)
    requires
        rules.email_view() matches Some(d) ==> regex_compiles(email_pattern(d)),
    ensures
        opt_view(r) == email_verdict(*rules, email@),
{
    let domain = match rules.email() {
        None => {
            return None;
        },
        Some(d) => d,
    };
    let pattern = email_regex(domain);
    match regex_new(pattern.as_str()) {
        Ok(re) => {
            if regex_matches(&re, email) {
                None
            } else {
                let mut message = String::from_str(EMAIL_MESSAGE_PREFIX);
                message.append(domain.as_str());
                Some(message)
            }
        },
        Err(_) => {
            proof {
                assert(false);
            }
            None
        },
    }
}

/// The checks that an entered value can be put through.
#[derive(Clone, Copy, Debug, PartialEq, Eq, Structural)]
pub enum Validator {
    Id,
    Date,
    Phone,
    Email,
    EmailDomain,
    PhonePattern,
}

/// Why a check could not be carried out under the rules.
#[derive(Clone, Copy, Debug, PartialEq, Eq, Structural)]
pub enum ValidationFault {
    /// The enforced phone-number pattern holds a character a pattern may not hold.
    InvalidPhonePattern,
    /// The `regex` crate does not accept the regex that the check needs.
    RejectedPattern,
}

/// What running the check `v` on `input` under `rules` gives.
pub open spec fn check_outcome(v: Validator, rules: BusinessRule, input: Seq<char>) -> Result<
    Option<Seq<char>>,
    ValidationFault,
> {
    match v {
        Validator::Id => Ok(None),
        Validator::Date => Ok(date_verdict(input)),
        Validator::Phone => if !rules.phone_pattern_ok() {
            Err(ValidationFault::InvalidPhonePattern)
        } else {
            match rules.phone_regex_view() {
                Some(p) => if regex_compiles(p) {
                    Ok(phone_verdict(rules, input))
                } else {
                    Err(ValidationFault::RejectedPattern)
                },
                None => Ok(None),
            }
        },
        Validator::Email => match rules.email_view() {
            Some(d) => if regex_compiles(email_pattern(d)) {
                Ok(email_verdict(rules, input))
            } else {
                Err(ValidationFault::RejectedPattern)
            },
            None => Ok(None),
        },
        Validator::EmailDomain => if regex_compiles(EMAIL_DOMAIN_PATTERN@) {
            Ok(match_verdict(EMAIL_DOMAIN_PATTERN@, input, EMAIL_DOMAIN_MESSAGE@))
        } else {
            Err(ValidationFault::RejectedPattern)
        },
        Validator::PhonePattern => if regex_compiles(PHONE_RULE_PATTERN@) {
            Ok(match_verdict(PHONE_RULE_PATTERN@, input, PHONE_RULE_MESSAGE@))
        } else {
            Err(ValidationFault::RejectedPattern)
        },
    }
}

/// Whether the `regex` crate accepts `pattern`.
fn compiles(pattern: &str) -> (r: bool)
    ensures
        r == regex_compiles(pattern@),
{
    match regex_new(pattern) {
        Ok(_) => true,
        Err(_) => false,
    }
}

impl Validator {
    /// Runs this check on `input`: `Ok(None)` when the input is accepted,
    /// `Ok(Some(message))` when it is not, `Err` when the rules do not allow
    /// the check to be carried out.
    pub fn check(&self, rules: &BusinessRule, input: &str) -> (r: Result<Option<String>, ValidationFault>)
        ensures
            match r {
                Ok(m) => check_outcome(*self, *rules, input@) == Ok::<Option<Seq<char>>, ValidationFault>(opt_view(m)),
                Err(f) => check_outcome(*self, *rules, input@) == Err::<Option<Seq<char>>, ValidationFault>(f),
            },
    {
        match self {
            Validator::Id => Ok(validate_id(input)),
            Validator::Date => Ok(validate_date(input)),
            Validator::Phone => {
                if !rules.phone_pattern_is_valid() {
                    return Err(ValidationFault::InvalidPhonePattern);
                }
                match rules.phone_regex() {
                    None => Ok(validate_phone(rules, input)),
                    Some(p) => {
                        if compiles(p.as_str()) {
                            Ok(validate_phone(rules, input))
                        } else {
                            Err(ValidationFault::RejectedPattern)
                        }
                    },
                }
            },
            Validator::Email => {
                match rules.email() {
                    None => Ok(validate_email(rules, input)),
                    Some(d) => {
                        let pattern = email_regex(d);
                        if compiles(pattern.as_str()) {
                            Ok(validate_email(rules, input))
                        } else {
                            Err(ValidationFault::RejectedPattern)
                        }
                    },
                }
            },
            Validator::EmailDomain => {
                if compiles(EMAIL_DOMAIN_PATTERN) {
                    Ok(validate_email_domain(input))
                } else {
                    Err(ValidationFault::RejectedPattern)
                }
            },
            Validator::PhonePattern => {
                if compiles(PHONE_RULE_PATTERN) {
                    Ok(validate_phone_number_pattern(input))
                } else {
                    Err(ValidationFault::RejectedPattern)
                }
            },
        }
    }
}

/// Once a domain is set (on a rule that is not switched off), e-mail addresses
/// are checked against that domain.
pub proof fn lemma_email_checked_against_set_domain(rules: BusinessRule, domain: String, email: Seq<char>)
    requires
        !(rules.email_domain matches Some(x) && x.disabled),
    ensures
        email_verdict(rules.with_email(domain), email) == match_verdict(
            email_pattern(domain@),
            email,
            email_message(domain@),
        ),
{
}

/// Once a phone-number pattern is set (on a rule that is not switched off),
/// phone numbers are checked against the regex made from that pattern.
pub proof fn lemma_phone_checked_against_set_pattern(rules: BusinessRule, pattern: String, phone: Seq<char>)
    requires
        !(rules.phone_pattern matches Some(x) && x.disabled),
    ensures
        phone_verdict(rules.with_phone_pattern(pattern), phone) == match_verdict(
            phone_regex_of(pattern@),
            phone,
            PHONE_MESSAGE@,
        ),
{
}

/// Without an enforced rule, every phone number and every e-mail address is accepted.
pub proof fn lemma_no_rule_accepts_all(rules: BusinessRule, input: Seq<char>)
    ensures
        rules.phone_pattern_view() is None ==> phone_verdict(rules, input) is None,
        rules.email_view() is None ==> email_verdict(rules, input) is None,
{
}

/// The regex for e-mail addresses in an enforced domain `d` accepts a local
/// part of letters, digits and `._%+-`, an `@`, then `d` taken literally; an
/// address it refuses is told the domain.
pub proof fn lemma_email_pattern_literal(d: Seq<char>)
    ensures
        email_pattern(d) == "^[a-zA-Z0-9._%+-]+@"@ + escaped(d) + "$"@,
        email_message(d) == "Email phải thuộc tên miền "@ + d,
{
    reveal_strlit("$");
    assert("$"@ =~= seq!['$']);
}

/// What each check answers, over the rules and the input: ids are always
/// accepted; dates by their verdict; without an enforced pattern or domain
/// every phone number or address is accepted; otherwise the input is accepted
/// exactly when the `regex` crate matches it, and refused with the rule's message.
pub proof fn lemma_check_outcomes(rules: BusinessRule, input: Seq<char>)
    ensures
        check_outcome(Validator::Id, rules, input) == Ok::<Option<Seq<char>>, ValidationFault>(None),
        check_outcome(Validator::Date, rules, input) == Ok::<Option<Seq<char>>, ValidationFault>(
            date_verdict(input),
        ),
        rules.phone_pattern_view() is None ==> check_outcome(Validator::Phone, rules, input)
            == Ok::<Option<Seq<char>>, ValidationFault>(None),
        !rules.phone_pattern_ok() ==> check_outcome(Validator::Phone, rules, input) == Err::<
            Option<Seq<char>>,
            ValidationFault,
        >(ValidationFault::InvalidPhonePattern),
        rules.phone_pattern_ok() ==> (rules.phone_pattern_view() matches Some(p) ==> {
            let re = "^"@ + phone_body(trimmed(p)) + "$"@;
            check_outcome(Validator::Phone, rules, input) == if !regex_compiles(re) {
                Err::<Option<Seq<char>>, ValidationFault>(ValidationFault::RejectedPattern)
            } else if regex_is_match(re, input) {
                Ok::<Option<Seq<char>>, ValidationFault>(None)
            } else {
                Ok::<Option<Seq<char>>, ValidationFault>(
                    Some("Số điện thoại không hợp lệ, vui lòng nhập lại."@),
                )
            }
        }),
        rules.email_view() is None ==> check_outcome(Validator::Email, rules, input) == Ok::<
            Option<Seq<char>>,
            ValidationFault,
        >(None),
        rules.email_view() matches Some(d) ==> {
            let re = "^[a-zA-Z0-9._%+-]+@"@ + escaped(d) + "$"@;
            check_outcome(Validator::Email, rules, input) == if !regex_compiles(re) {
                Err::<Option<Seq<char>>, ValidationFault>(ValidationFault::RejectedPattern)
            } else if regex_is_match(re, input) {
                Ok::<Option<Seq<char>>, ValidationFault>(None)
            } else {
                Ok::<Option<Seq<char>>, ValidationFault>(Some("Email phải thuộc tên miền "@ + d))
            }
        },
{
    reveal_strlit("$");
    reveal_strlit("^");
    assert("$"@ =~= seq!['$']);
    assert("^"@ =~= seq!['^']);
    if let Some(d) = rules.email_view() {
        lemma_email_pattern_literal(d);
    }
}

} // verus!
