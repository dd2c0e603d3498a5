//! The configurable business rules: the e-mail domain, the phone-number
//! pattern and the time during which a new student may be deleted.
use vstd::prelude::*;
use crate::regex_support::{regex_compiles, regex_is_match, regex_new, regex_matches};
use crate::text::{
    chars_of, char_is_numeric, is_numeric, opt_view, push_char, trimmed, trim_bounds,
};

verus! {

/// A change of the business rules that the user may ask for.
pub enum ConfigOption {
    EmailDomain(String),
    PhonePattern(String),
    StudentDeletionTime(i64),
    StatusRule,
    ToggleEmailRule(bool),
    TogglePhoneRule(bool),
    ToggleStatusRule(bool),
    ToggleStudentDeletionRule(bool),
}

/// The pattern an e-mail domain must match.
pub const EMAIL_DOMAIN_PATTERN: &'static str = "^[a-zA-Z0-9.-]+\\.[a-zA-Z]{2,}$";

/// The pattern a phone-number pattern must match.
pub const PHONE_RULE_PATTERN: &'static str = "^(?:\\[\\d(?:\\|\\d)*\\]|x|\\d)+$";

pub const EMAIL_DOMAIN_MESSAGE: &'static str = "Tên miền không hợp lệ, vui lòng nhập lại";

pub const PHONE_RULE_MESSAGE: &'static str = "Định dạng số điện thoại không hợp lệ, vui lòng nhập lại";

/// `None` when `text` matches `pattern`, else `message`.
pub open spec fn match_verdict(pattern: Seq<char>, text: Seq<char>, message: Seq<char>) -> Option<Seq<char>> {
    if regex_is_match(pattern, text) {
        None
    } else {
        Some(message)
    }
}

/// Checks that `domain` looks like an e-mail domain (`name.tld`).
pub fn validate_email_domain(domain: &str) -> (r: Option<String>)
    requires
        regex_compiles(EMAIL_DOMAIN_PATTERN@),
    ensures
        opt_view(r) == match_verdict(EMAIL_DOMAIN_PATTERN@, domain@, EMAIL_DOMAIN_MESSAGE@),
{
    match regex_new(EMAIL_DOMAIN_PATTERN) {
        Ok(re) => {
            if regex_matches(&re, domain) {
                None
            } else {
                Some(String::from_str(EMAIL_DOMAIN_MESSAGE))
            }
        },
        Err(_) => {
            proof {
                assert(false);
            }
            None
        },
    }
}

/// Checks that `pattern` is a phone-number pattern: digits, `x` for any digit,
/// and `[d|d|..]` for one of the listed digits.
pub fn validate_phone_number_pattern(pattern: &str) -> (r: Option<String>)
    requires
        regex_compiles(PHONE_RULE_PATTERN@),
    ensures
        opt_view(r) == match_verdict(PHONE_RULE_PATTERN@, pattern@, PHONE_RULE_MESSAGE@),
{
    match regex_new(PHONE_RULE_PATTERN) {
        Ok(re) => {
            if regex_matches(&re, pattern) {
                None
            } else {
                Some(String::from_str(PHONE_RULE_MESSAGE))
            }
        },
        Err(_) => {
            proof {
                assert(false);
            }
            None
        },
    }
}

/// A rule's value and whether it is switched off.
pub struct Rule<T> {
    pub rule: T,
    pub disabled: bool,
}

/// The business rules. A rule that is absent or disabled is not enforced.
pub struct BusinessRule {
    pub email_domain: Option<Rule<String>>,
    pub phone_pattern: Option<Rule<String>>,
    pub student_deletion_time: Option<Rule<i64>>,
}

/// The value of a rule that is present and enabled.
pub open spec fn active<T>(r: Option<Rule<T>>) -> Option<T> {
    match r {
        Some(x) => if x.disabled { None } else { Some(x.rule) },
        None => None,
    }
}

/// A rule given the value `v`: it keeps its switch, and a new rule starts enabled.
pub open spec fn with_value<T>(r: Option<Rule<T>>, v: T) -> Option<Rule<T>> {
    match r {
        Some(x) => Some(Rule { rule: v, disabled: x.disabled }),
        None => Some(Rule { rule: v, disabled: false }),
    }
}

/// A rule given the value `v` if it exists; an absent rule stays absent.
pub open spec fn with_existing_value<T>(r: Option<Rule<T>>, v: T) -> Option<Rule<T>> {
    match r {
        Some(x) => Some(Rule { rule: v, disabled: x.disabled }),
        None => None,
    }
}

/// A rule switched on or off; an absent rule stays absent.
pub open spec fn with_enabled<T>(r: Option<Rule<T>>, enable: bool) -> Option<Rule<T>> {
    match r {
        Some(x) => Some(Rule { rule: x.rule, disabled: !enable }),
        None => None,
    }
}

/// What one character of a phone-number pattern stands for in regex syntax,
/// `None` for a character a pattern may not hold. `|` only separates the
/// choices of a bracket and stands for nothing; `x` stands for any digit.
pub open spec fn phone_piece(c: char) -> Option<Seq<char>> {
    if c == '|' {
        Some(Seq::empty())
    } else if c == 'x' {
        Some(seq!['\\', 'd'])
    } else if c == '[' || c == ']' || ('0' <= c && c <= '9') || char_is_numeric(c) {
        Some(seq![c])
    } else {
        None
    }
}

/// Every character of the (trimmed) pattern may stand in a phone-number pattern.
pub open spec fn phone_pattern_chars_ok(p: Seq<char>) -> bool {
    forall|i: int| 0 <= i < p.len() ==> (#[trigger] phone_piece(p[i])) is Some
}

/// The regex syntax for the characters of a pattern, one after the other.
pub open spec fn phone_body(p: Seq<char>) -> Seq<char>
    decreases p.len(),
{
    if p.len() == 0 {
        Seq::empty()
    } else {
        phone_body(p.drop_last()) + match phone_piece(p.last()) {
            Some(piece) => piece,
            None => Seq::empty(),
        }
    }
}

/// The regex that a phone number must match under the pattern `pattern`.
pub open spec fn phone_regex_of(pattern: Seq<char>) -> Seq<char> {
    seq!['^'] + phone_body(trimmed(pattern)) + seq!['$']
}

impl BusinessRule {
    /// The e-mail domain that is enforced, if any.
    pub open spec fn email_view(&self) -> Option<Seq<char>> {
        match active(self.email_domain) {
            Some(s) => Some(s@),
            None => None,
        }
    }

    /// The phone-number pattern that is enforced, if any.
    pub open spec fn phone_pattern_view(&self) -> Option<Seq<char>> {
        match active(self.phone_pattern) {
            Some(s) => Some(s@),
            None => None,
        }
    }

    /// The enforced phone-number pattern, if any, holds only characters a pattern may hold.
    pub open spec fn phone_pattern_ok(&self) -> bool {
        match self.phone_pattern_view() {
            Some(p) => phone_pattern_chars_ok(trimmed(p)),
            None => true,
        }
    }

    /// The regex for phone numbers under the enforced pattern, if any.
    pub open spec fn phone_regex_view(&self) -> Option<Seq<char>> {
        match self.phone_pattern_view() {
            Some(p) => Some(phone_regex_of(p)),
            None => None,
        }
    }

    pub open spec fn with_email(self, email: String) -> BusinessRule {
        BusinessRule { email_domain: with_value(self.email_domain, email), ..self }
    }

    pub open spec fn with_phone_pattern(self, pattern: String) -> BusinessRule {
        BusinessRule { phone_pattern: with_value(self.phone_pattern, pattern), ..self }
    }

    pub open spec fn with_deletion_time(self, time: i64) -> BusinessRule {
        BusinessRule {
            student_deletion_time: with_existing_value(self.student_deletion_time, time),
            ..self
        }
    }

    pub open spec fn with_email_enabled(self, enable: bool) -> BusinessRule {
        BusinessRule { email_domain: with_enabled(self.email_domain, enable), ..self }
    }

    pub open spec fn with_phone_enabled(self, enable: bool) -> BusinessRule {
        BusinessRule { phone_pattern: with_enabled(self.phone_pattern, enable), ..self }
    }

    pub open spec fn with_deletion_time_enabled(self, enable: bool) -> BusinessRule {
        BusinessRule {
            student_deletion_time: with_enabled(self.student_deletion_time, enable),
            ..self
        }
    }

    /// The rules after the change `option`, for an option that concerns
    /// one of the rules kept here (not the rule on status changes).
    pub open spec fn applied(self, option: ConfigOption) -> BusinessRule {
        match option {
            ConfigOption::EmailDomain(d) => self.with_email(d),
            ConfigOption::PhonePattern(p) => self.with_phone_pattern(p),
            ConfigOption::StudentDeletionTime(t) => self.with_deletion_time(t),
            ConfigOption::ToggleEmailRule(e) => self.with_email_enabled(e),
            ConfigOption::TogglePhoneRule(e) => self.with_phone_enabled(e),
            ConfigOption::ToggleStudentDeletionRule(e) => self.with_deletion_time_enabled(e),
            _ => self,
        }
    }

    /// Rules with nothing set: no rule is enforced.
    pub fn new() -> (r: Self)
        ensures
            r.email_domain is None,
            r.phone_pattern is None,
            r.student_deletion_time is None,
    {
        BusinessRule { email_domain: None, phone_pattern: None, student_deletion_time: None }
    }

    /// Whether the enforced phone-number pattern, if any, can be turned into a regex.
    pub fn phone_pattern_is_valid(&self) -> (r: bool)
        ensures
            r == self.phone_pattern_ok(),
    {
        match &self.phone_pattern {
            None => true,
            Some(p) => {
                if p.disabled {
                    return true;
                }
                let chars = chars_of(p.rule.as_str());
                let (a, b) = trim_bounds(&chars);
                let ghost t = chars@.subrange(a as int, b as int);
                assert(self.phone_pattern_view() == Some(p.rule@));
                let mut i = a;
                while i < b
                    invariant
                        a <= i <= b <= chars.len(),
                        t == chars@.subrange(a as int, b as int),
                        t == trimmed(p.rule@),
                        self.phone_pattern_view() == Some(p.rule@),
                        forall|k: int| 0 <= k < i - a ==> (#[trigger] phone_piece(t[k])) is Some,
                    decreases b - i,
                {
                    let c = chars[i];
                    assert(t[i - a] == c);
                    if !(c == '|' || c == '[' || c == ']' || is_numeric(c) || c == 'x') {
                        assert(phone_piece(t[i - a]) is None);
                        assert(!phone_pattern_chars_ok(t));
                        return false;
                    }
                    i = i + 1;
                }
                true
            },
        }
    }

    /// The regex that phone numbers must match, when a pattern is enforced.
    pub fn phone_regex(&self) -> (r: Option<String>)
        requires
            self.phone_pattern_ok(),
        ensures
            opt_view(r) == self.phone_regex_view(),
    {
        let p = match &self.phone_pattern {
            None => {
                return None;
            },
            Some(p) => p,
        };
        if p.disabled {
            return None;
        }
        let chars = chars_of(p.rule.as_str());
        let (a, b) = trim_bounds(&chars);
        let ghost t = chars@.subrange(a as int, b as int);
        let mut regex = String::new();
        push_char(&mut regex, '^');
        let mut i = a;
        while i < b
            invariant
                a <= i <= b <= chars.len(),
                t == chars@.subrange(a as int, b as int),
                phone_pattern_chars_ok(t),
                regex@ == seq!['^'] + phone_body(t.take(i - a)),
            decreases b - i,
        {
            let c = chars[i];
            assert(t[i - a] == c);
            assert(t.take(i + 1 - a).drop_last() =~= t.take(i - a));
            assert(phone_piece(t[i - a]) is Some);
            let ghost before = regex@;
            if c == '|' {
            } else if c == '[' || c == ']' || is_numeric(c) {
                push_char(&mut regex, c);
            } else {
                push_char(&mut regex, '\\');
                push_char(&mut regex, 'd');
            }
            assert(regex@ =~= seq!['^'] + phone_body(t.take(i + 1 - a)));
            i = i + 1;
        }
        assert(t.take(b - a) =~= t);
        push_char(&mut regex, '$');
        assert(regex@ =~= phone_regex_of(p.rule@));
        Some(regex)
    }

    /// The time (in minutes) during which a new student may be deleted, when enforced.
    pub fn student_deletion_time(&self) -> (r: Option<i64>)
        ensures
            r == active(self.student_deletion_time),
    {
        match &self.student_deletion_time {
            Some(x) => if !x.disabled { Some(x.rule) } else { None },
            None => None,
        }
    }

    /// The e-mail domain that addresses must belong to, when enforced.
    pub fn email(&self) -> (r: Option<&String>)
        ensures
            match r {
                Some(s) => self.email_view() == Some(s@),
                None => self.email_view() is None,
            },
    {
        match &self.email_domain {
            Some(x) => if !x.disabled { Some(&x.rule) } else { None },
            None => None,
        }
    }

    /// Sets the e-mail domain; a rule that did not exist is created enabled.
    pub fn set_email(&mut self, email: String)
        ensures
            *final(self) == old(self).with_email(email),
    {
        let cur = self.email_domain.take();
        self.email_domain = Some(match cur {
            Some(x) => Rule { rule: email, disabled: x.disabled },
            None => Rule { rule: email, disabled: false },
        });
    }

    /// Sets the phone-number pattern; a rule that did not exist is created enabled.
    pub fn set_phone_number_pattern(&mut self, pattern: String)
        ensures
            *final(self) == old(self).with_phone_pattern(pattern),
    {
        let cur = self.phone_pattern.take();
        self.phone_pattern = Some(match cur {
            Some(x) => Rule { rule: pattern, disabled: x.disabled },
            None => Rule { rule: pattern, disabled: false },
        });
    }

    /// Switches the e-mail domain rule on or off, if it exists.
    pub fn set_email_rule_enable(&mut self, enable: bool)
        ensures
            *final(self) == old(self).with_email_enabled(enable),
    {
        if let Some(x) = &mut self.email_domain {
            x.disabled = !enable;
        }
    }

    /// Switches the phone-number rule on or off, if it exists.
    pub fn set_phone_rule_enable(&mut self, enable: bool)
        ensures
            *final(self) == old(self).with_phone_enabled(enable),
    {
        if let Some(x) = &mut self.phone_pattern {
            x.disabled = !enable;
        }
    }

    /// Sets the deletion time of the rule, if it exists.
    pub fn set_student_deletion_time(&mut self, time: i64)
        ensures
            *final(self) == old(self).with_deletion_time(time),
    {
        if let Some(x) = &mut self.student_deletion_time {
            x.rule = time;
        }
    }

    /// Switches the deletion-time rule on or off, if it exists.
    pub fn set_student_deletion_time_enable(&mut self, enable: bool)
        ensures
            *final(self) == old(self).with_deletion_time_enabled(enable),
    {
        if let Some(x) = &mut self.student_deletion_time {
            x.disabled = !enable;
        }
    }

    /// Carries out the change `option` of the rules. The rule on changes of a
    /// student's status is not supported: its two options are left out.
    pub fn apply(&mut self, option: ConfigOption)
        requires
            !(option is StatusRule),
            !(option is ToggleStatusRule),
        ensures
            *final(self) == old(self).applied(option),
    {
        match option {
            ConfigOption::EmailDomain(d) => self.set_email(d),
            ConfigOption::PhonePattern(p) => self.set_phone_number_pattern(p),
            ConfigOption::StudentDeletionTime(t) => self.set_student_deletion_time(t),
            ConfigOption::ToggleEmailRule(e) => self.set_email_rule_enable(e),
            ConfigOption::TogglePhoneRule(e) => self.set_phone_rule_enable(e),
            ConfigOption::StatusRule | ConfigOption::ToggleStatusRule(_) => {},
            ConfigOption::ToggleStudentDeletionRule(e) => self.set_student_deletion_time_enable(e),
        }
    }
}

/// Setting the e-mail domain makes it the enforced domain, unless the rule
/// was switched off; the other rules stay as they were.
pub proof fn lemma_email_set_then_read(rules: BusinessRule, email: String)
    ensures
        rules.with_email(email).email_view() == (if rules.email_domain matches Some(x) && x.disabled {
            None
        } else {
            Some(email@)
        }),
        rules.with_email(email).phone_pattern == rules.phone_pattern,
        rules.with_email(email).student_deletion_time == rules.student_deletion_time,
{
}

/// Setting the phone-number pattern makes it the enforced pattern, unless the
/// rule was switched off; the other rules stay as they were.
pub proof fn lemma_phone_pattern_set_then_read(rules: BusinessRule, pattern: String)
    ensures
        rules.with_phone_pattern(pattern).phone_pattern_view() == (if rules.phone_pattern matches Some(x)
            && x.disabled {
            None
        } else {
            Some(pattern@)
        }),
        !(rules.phone_pattern matches Some(x) && x.disabled) ==> rules.with_phone_pattern(
            pattern,
        ).phone_regex_view() == Some(phone_regex_of(pattern@)),
        rules.with_phone_pattern(pattern).email_domain == rules.email_domain,
        rules.with_phone_pattern(pattern).student_deletion_time == rules.student_deletion_time,
{
}

/// Setting the deletion time of an existing rule makes it the enforced time,
/// unless the rule is switched off; an absent rule stays absent; the other
/// rules stay as they were.
pub proof fn lemma_deletion_time_set_then_read(rules: BusinessRule, time: i64)
    ensures
        active(rules.with_deletion_time(time).student_deletion_time) == (
        match rules.student_deletion_time {
            Some(x) => if x.disabled { None } else { Some(time) },
            None => None,
        }),
        rules.with_deletion_time(time).email_domain == rules.email_domain,
        rules.with_deletion_time(time).phone_pattern == rules.phone_pattern,
{
}

/// Switching a rule off stops it being enforced; switching it on enforces the
/// value it holds; neither changes that value nor the other rules.
pub proof fn lemma_rule_switches(rules: BusinessRule, enable: bool)
    ensures
        rules.with_email_enabled(false).email_view() is None,
        rules.with_phone_enabled(false).phone_pattern_view() is None,
        active(rules.with_deletion_time_enabled(false).student_deletion_time) is None,
        rules.email_domain matches Some(x) ==> rules.with_email_enabled(true).email_view() == Some(
            x.rule@,
        ),
        rules.phone_pattern matches Some(x) ==> rules.with_phone_enabled(true).phone_pattern_view()
            == Some(x.rule@),
        rules.student_deletion_time matches Some(x) ==> active(
            rules.with_deletion_time_enabled(true).student_deletion_time,
        ) == Some(x.rule),
        rules.with_email_enabled(enable).email_domain is Some == rules.email_domain is Some,
        rules.with_email_enabled(enable).email_domain matches Some(x) ==> x.rule
            == rules.email_domain->0.rule,
        rules.with_email_enabled(enable).phone_pattern == rules.phone_pattern,
        rules.with_phone_enabled(enable).email_domain == rules.email_domain,
        rules.with_deletion_time_enabled(enable).email_domain == rules.email_domain,
{
}

/// Each option of the configuration menu acts on its own rule and on nothing
/// else: a new value keeps the rule's switch, a switch keeps the rule's value,
/// and the two other rules are left as they were.
pub proof fn lemma_apply_acts_on_its_own_rule(rules: BusinessRule, option: ConfigOption)
    ensures
        ({
            let after = rules.applied(option);
            match option {
                ConfigOption::EmailDomain(d) => {
                    &&& after.email_domain == Some(Rule {
                        rule: d,
                        disabled: rules.email_domain matches Some(x) && x.disabled,
                    })
                    &&& after.phone_pattern == rules.phone_pattern
                    &&& after.student_deletion_time == rules.student_deletion_time
                },
                ConfigOption::PhonePattern(p) => {
                    &&& after.phone_pattern == Some(Rule {
                        rule: p,
                        disabled: rules.phone_pattern matches Some(x) && x.disabled,
                    })
                    &&& after.email_domain == rules.email_domain
                    &&& after.student_deletion_time == rules.student_deletion_time
                },
                ConfigOption::StudentDeletionTime(t) => {
                    &&& after.student_deletion_time == match rules.student_deletion_time {
                        Some(x) => Some(Rule { rule: t, disabled: x.disabled }),
                        None => None,
                    }
                    &&& after.email_domain == rules.email_domain
                    &&& after.phone_pattern == rules.phone_pattern
                },
                ConfigOption::ToggleEmailRule(e) => {
                    &&& after.email_domain == match rules.email_domain {
                        Some(x) => Some(Rule { rule: x.rule, disabled: !e }),
                        None => None,
                    }
                    &&& after.phone_pattern == rules.phone_pattern
                    &&& after.student_deletion_time == rules.student_deletion_time
                },
                ConfigOption::TogglePhoneRule(e) => {
                    &&& after.phone_pattern == match rules.phone_pattern {
                        Some(x) => Some(Rule { rule: x.rule, disabled: !e }),
                        None => None,
                    }
                    &&& after.email_domain == rules.email_domain
                    &&& after.student_deletion_time == rules.student_deletion_time
                },
                ConfigOption::ToggleStudentDeletionRule(e) => {
                    &&& after.student_deletion_time == match rules.student_deletion_time {
                        Some(x) => Some(Rule { rule: x.rule, disabled: !e }),
                        None => None,
                    }
                    &&& after.email_domain == rules.email_domain
                    &&& after.phone_pattern == rules.phone_pattern
                },
                _ => true,
            }
        }),
{
}

/// Switching the phone rule off stops phone numbers being checked, and leaves
/// the deletion time as it was; switching the deletion rule off leaves the
/// phone pattern as it was.
pub proof fn lemma_switches_are_independent(rules: BusinessRule)
    ensures
        rules.applied(ConfigOption::TogglePhoneRule(false)).phone_regex_view() is None,
        active(rules.applied(ConfigOption::TogglePhoneRule(false)).student_deletion_time)
            == active(rules.student_deletion_time),
        rules.applied(ConfigOption::ToggleStudentDeletionRule(false)).phone_regex_view()
            == rules.phone_regex_view(),
        active(rules.applied(ConfigOption::ToggleStudentDeletionRule(false)).student_deletion_time) is None,
{
}

/// A phone-number pattern becomes regex syntax piece by piece: `|` is dropped,
/// `x` becomes `\d`, and the brackets stay.
pub proof fn lemma_phone_pieces()
    ensures
        phone_piece('|') == Some(Seq::<char>::empty()),
        phone_piece('x') == Some(seq!['\\', 'd']),
        phone_piece('[') == Some(seq!['[']),
        phone_piece(']') == Some(seq![']']),
        forall|c: char| '0' <= c <= '9' ==> phone_piece(c) == Some(seq![c]),
{
}

/// A pattern becomes regex syntax one character after another: the syntax
/// for two patterns put together is the syntax of each, put together.
pub proof fn lemma_phone_body_concat(p: Seq<char>, q: Seq<char>)
    ensures
        phone_body(p + q) == phone_body(p) + phone_body(q),
    decreases q.len(),
{
    if q.len() == 0 {
        assert(p + q =~= p);
        assert(phone_body(p) + phone_body(q) =~= phone_body(p));
    } else {
        lemma_phone_body_concat(p, q.drop_last());
        assert((p + q).drop_last() =~= p + q.drop_last());
        assert((p + q).last() == q.last());
        let piece = match phone_piece(q.last()) {
            Some(x) => x,
            None => Seq::<char>::empty(),
        };
        assert(phone_body(p) + phone_body(q.drop_last()) + piece =~= phone_body(p) + (phone_body(q.drop_last()) + piece));
    }
}

} // verus!
