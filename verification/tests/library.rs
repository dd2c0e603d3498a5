use student_management::business_config::{BusinessRule, ConfigOption, Rule};
use student_management::data::gender::Gender;
use student_management::data::student::Student;
use student_management::date::{check_date, validate_date, DATE_FORMAT_MESSAGE, DATE_INVALID_MESSAGE};
use student_management::fixed_rules;
use student_management::io::file_format::FileFormat;
use student_management::io::reader::{boolean_choice, judge_number, NumberInput};
use student_management::io::template::{RenderError, Template};
use student_management::menu::{OperationChoice, StudentStatusExportFormat, UpdateStudentOption};
use student_management::number::{format_i32, parse_i32, parse_u32};
use student_management::status_certificate::status_certificate;
use student_management::validation::{
    validate_email, validate_id, validate_phone, ValidationFault, Validator, PHONE_MESSAGE,
};

#[test]
fn parse_u32_follows_std() {
    for s in ["0", "+42", "007", "4294967295", "4294967296", "", "+", "-1", "1a", " 1", "99999999999"] {
        assert_eq!(parse_u32(s), s.parse::<u32>().ok(), "input {:?}", s);
    }
    assert_eq!(parse_u32("+42"), Some(42));
    assert_eq!(parse_u32("4294967295"), Some(u32::MAX));
}

#[test]
fn parse_i32_follows_std() {
    for s in ["-2147483648", "-2147483649", "2147483647", "2147483648", "-0", "+-1", "-", "", "12a", "-12"] {
        assert_eq!(parse_i32(s), s.parse::<i32>().ok(), "input {:?}", s);
    }
    assert_eq!(parse_i32("-2147483648"), Some(i32::MIN));
}

#[test]
fn format_i32_writes_decimal() {
    assert_eq!(format_i32(0), "0");
    assert_eq!(format_i32(2025), "2025");
    assert_eq!(format_i32(-305), "-305");
    assert_eq!(format_i32(i32::MIN), "-2147483648");
    assert_eq!(format_i32(i32::MAX), "2147483647");
}

#[test]
fn format_then_parse_gives_the_number_back() {
    for n in [0, 1, 9, 10, 2025, -1, -10, i32::MIN, i32::MAX] {
        assert_eq!(parse_i32(&format_i32(n)), Some(n));
    }
}

#[test]
fn check_date_knows_the_calendar() {
    assert!(check_date(29, 2, 2000));
    assert!(!check_date(29, 2, 1900));
    assert!(check_date(29, 2, 2024));
    assert!(!check_date(29, 2, 2023));
    assert!(!check_date(31, 4, 2020));
    assert!(check_date(31, 12, 2020));
    assert!(!check_date(1, 13, 2020));
    assert!(!check_date(0, 1, 2020));
    assert!(!check_date(1, 1, 0));
}

#[test]
fn validate_date_messages() {
    assert_eq!(validate_date("13/12/2003"), None);
    assert_eq!(validate_date("130/12/2003").as_deref(), Some(DATE_FORMAT_MESSAGE));
    assert_eq!(validate_date("31/02/2003").as_deref(), Some(DATE_INVALID_MESSAGE));
    assert_eq!(validate_date("1/1").as_deref(), Some(DATE_INVALID_MESSAGE));
    assert_eq!(validate_date("a/1/2000").as_deref(), Some(DATE_FORMAT_MESSAGE));
    assert_eq!(validate_date("1/1/20/5").as_deref(), Some(DATE_FORMAT_MESSAGE));
    assert_eq!(validate_date("").as_deref(), Some(DATE_FORMAT_MESSAGE));
    assert_eq!(validate_date("+1/+1/2000"), None);
    assert_eq!(validate_date("29/2/2024"), None);
}

#[test]
fn setting_a_rule_enforces_it() {
    let mut rules = BusinessRule::new();
    assert!(rules.email().is_none());
    rules.set_email("a.b".to_string());
    assert_eq!(rules.email().map(|s| s.as_str()), Some("a.b"));
    rules.set_email_rule_enable(false);
    assert!(rules.email().is_none());
    rules.set_email("c.d".to_string());
    assert!(rules.email().is_none());
    rules.set_email_rule_enable(true);
    assert_eq!(rules.email().map(|s| s.as_str()), Some("c.d"));
    assert!(rules.phone_pattern.is_none());
    assert!(rules.student_deletion_time.is_none());
}

#[test]
fn switching_an_absent_rule_changes_nothing() {
    let mut rules = BusinessRule::new();
    rules.set_phone_rule_enable(true);
    rules.set_student_deletion_time_enable(true);
    rules.set_email_rule_enable(true);
    assert!(rules.phone_pattern.is_none());
    assert!(rules.student_deletion_time.is_none());
    assert!(rules.email_domain.is_none());
}

#[test]
fn deletion_time_rule() {
    let mut rules = BusinessRule::new();
    assert_eq!(rules.student_deletion_time(), None);
    rules.set_student_deletion_time(45);
    assert_eq!(rules.student_deletion_time(), None);
    assert!(rules.student_deletion_time.is_none());
    rules.student_deletion_time = Some(Rule { rule: 30, disabled: false });
    rules.set_student_deletion_time(45);
    assert_eq!(rules.student_deletion_time(), Some(45));
    rules.set_student_deletion_time_enable(false);
    assert_eq!(rules.student_deletion_time(), None);
    rules.set_student_deletion_time_enable(true);
    assert_eq!(rules.student_deletion_time(), Some(45));
}

#[test]
fn apply_carries_out_each_option() {
    let mut rules = BusinessRule::new();
    rules.apply(ConfigOption::EmailDomain("x.vn".to_string()));
    rules.apply(ConfigOption::PhonePattern("0x".to_string()));
    rules.student_deletion_time = Some(Rule { rule: 30, disabled: false });
    rules.apply(ConfigOption::StudentDeletionTime(60));
    assert_eq!(rules.email().map(|s| s.as_str()), Some("x.vn"));
    assert_eq!(rules.phone_regex().as_deref(), Some("^0\\d$"));
    assert_eq!(rules.student_deletion_time(), Some(60));
    rules.apply(ConfigOption::ToggleEmailRule(false));
    rules.apply(ConfigOption::TogglePhoneRule(false));
    rules.apply(ConfigOption::ToggleStudentDeletionRule(false));
    assert!(rules.email().is_none());
    assert!(rules.phone_regex().is_none());
    assert!(rules.student_deletion_time().is_none());
    assert!(rules.email_domain.as_ref().map(|r| r.disabled).unwrap());
}

#[test]
fn phone_regex_from_pattern() {
    let mut rules = BusinessRule::new();
    assert_eq!(rules.phone_regex(), None);
    rules.set_phone_number_pattern("  0[3|5|7|8|9]xxxxxxxx \t".to_string());
    assert!(rules.phone_pattern_is_valid());
    assert_eq!(
        rules.phone_regex().as_deref(),
        Some("^0[35789]\\d\\d\\d\\d\\d\\d\\d\\d$")
    );
    rules.set_phone_number_pattern("0[3|5]ABx".to_string());
    assert!(!rules.phone_pattern_is_valid());
    rules.set_phone_rule_enable(false);
    assert!(rules.phone_pattern_is_valid());
}

#[test]
fn a_disabled_rule_keeps_its_switch_when_set() {
    let mut rules = BusinessRule {
        email_domain: Some(Rule { rule: "a.vn".to_string(), disabled: true }),
        phone_pattern: None,
        student_deletion_time: None,
    };
    rules.set_email("b.vn".to_string());
    assert!(rules.email().is_none());
    assert_eq!(rules.email_domain.as_ref().map(|r| r.rule.as_str()), Some("b.vn"));
}

#[test]
fn validators_without_rules_accept_everything() {
    let rules = BusinessRule::new();
    assert_eq!(validate_phone(&rules, "not a phone"), None);
    assert_eq!(validate_email(&rules, "not an email"), None);
    assert_eq!(validate_id("anything"), None);
}

#[test]
fn phone_check_message() {
    let mut rules = BusinessRule::new();
    rules.set_phone_number_pattern("0[3|5|7|8|9]xxxxxxxx".to_string());
    assert_eq!(validate_phone(&rules, "0908063538"), None);
    assert_eq!(validate_phone(&rules, "0108063538").as_deref(), Some(PHONE_MESSAGE));
    assert_eq!(validate_phone(&rules, "09080635389").as_deref(), Some(PHONE_MESSAGE));
}

#[test]
fn email_domain_is_matched_literally() {
    let mut rules = BusinessRule::new();
    rules.set_email("fit.hcmus.edu.vn".to_string());
    assert_eq!(validate_email(&rules, "tuong@fit.hcmus.edu.vn"), None);
    assert_eq!(
        validate_email(&rules, "tuong@fitxhcmus.edu.vn").as_deref(),
        Some("Email phải thuộc tên miền fit.hcmus.edu.vn")
    );
    assert!(validate_email(&rules, "@fit.hcmus.edu.vn").is_some());
}

#[test]
fn validator_check_runs_each_check() {
    let mut rules = BusinessRule::new();
    assert_eq!(Validator::Id.check(&rules, "x"), Ok(None));
    assert_eq!(Validator::Date.check(&rules, "13/12/2003"), Ok(None));
    assert!(matches!(Validator::Date.check(&rules, "13/13/2003"), Ok(Some(_))));
    assert_eq!(Validator::EmailDomain.check(&rules, "fit.hcmus.edu.vn"), Ok(None));
    assert!(matches!(Validator::EmailDomain.check(&rules, "fit"), Ok(Some(_))));
    assert_eq!(Validator::PhonePattern.check(&rules, "0[3|5]xx"), Ok(None));
    assert!(matches!(Validator::PhonePattern.check(&rules, "0y"), Ok(Some(_))));
    rules.set_email("fit.vn".to_string());
    assert_eq!(Validator::Email.check(&rules, "a@fit.vn"), Ok(None));
    assert!(matches!(Validator::Email.check(&rules, "a@fat.vn"), Ok(Some(_))));
    rules.set_phone_number_pattern("0[3|5|7|8|9]ABxCxxDx".to_string());
    assert_eq!(
        Validator::Phone.check(&rules, "0908063538"),
        Err(ValidationFault::InvalidPhonePattern)
    );
    rules.set_phone_number_pattern("0[".to_string());
    assert_eq!(Validator::Phone.check(&rules, "0908063538"), Err(ValidationFault::RejectedPattern));
    rules.set_phone_number_pattern("0x".to_string());
    assert_eq!(Validator::Phone.check(&rules, "05"), Ok(None));
}

#[test]
fn render_fills_placeholders_in_order() {
    let out = Template::render("a${x}$b${y}$c", &[("x", "1"), ("y", "2")]);
    assert_eq!(out, "a1b2c");
    let out = Template::render("Tên: ${name}$.", &[("name", "Tường")]);
    assert_eq!(out, "Tên: Tường.");
}

#[test]
fn render_last_value_of_a_key_wins() {
    assert_eq!(Template::render("${k}$", &[("k", "first"), ("k", "last")]), "last");
}

#[test]
fn render_leaves_plain_text_alone() {
    for text in ["", "plain", "$ { } $", "}$ then ${", "$"] {
        if !text.contains("${") {
            assert_eq!(Template::render(text, &[("a", "b")]), text);
        }
    }
}

#[test]
fn render_missing_end_tag() {
    assert!(matches!(Template::try_render("${}", &[]), Err(RenderError::MissingEndTag)));
    assert!(matches!(Template::try_render("x ${a}$ ${b", &[("a", "1")]), Err(RenderError::MissingEndTag)));
}

#[test]
fn render_missing_value() {
    match Template::try_render("${tuong}$", &[]) {
        Err(RenderError::MissingValue(key)) => assert_eq!(key, "tuong"),
        _ => panic!("expected a missing value"),
    }
}

#[test]
fn certificate_is_filled_from_the_student() {
    let mut student = Student::new();
    student.id = "21127720".to_string();
    student.name = "Tuong".to_string();
    student.gender = Gender::Female;
    student.enrolled_year = 2021;
    let template = "${school_name_upper_case}$|${student_id}$|${student_name}$|${student_gender}$|${student_enrolled_year}$|${issue_reason}$|${expired_date}$|${issued_date}$";
    let out = status_certificate(template, &student, "vay vốn", "01/01/2026", "18/12/2025");
    match out {
        Ok(text) => assert_eq!(
            text,
            "UNIVERSITY OF SCIENCE - VNUHCM|21127720|Tuong|Nữ|2021|vay vốn|01/01/2026|18/12/2025"
        ),
        Err(_) => panic!("the template should be filled"),
    }
    assert!(matches!(
        status_certificate("${unknown}$", &student, "", "", ""),
        Err(RenderError::MissingValue(_))
    ));
}

#[test]
fn gender_code_round_trip() {
    for g in [Gender::Male, Gender::Female] {
        assert_eq!(Gender::parse_choice(g.code()), Some(g));
    }
    assert_eq!(Gender::Male.code(), 1);
    assert_eq!(Gender::Female.code(), 2);
    assert_eq!(Gender::parse_choice(0), None);
    assert_eq!(Gender::parse_choice(3), None);
    assert_eq!(Gender::Male.value(), "Nam");
    assert_eq!(Gender::Female.value(), "Nữ");
}

#[test]
fn menus_map_choices() {
    assert_eq!(FileFormat::parse_choice(1), Some(FileFormat::Json));
    assert_eq!(FileFormat::parse_choice(2), Some(FileFormat::Xml));
    assert_eq!(FileFormat::parse_choice(3), None);
    assert_eq!(FileFormat::Json.extension(), "json");
    assert_eq!(FileFormat::Xml.extension(), "xml");
    assert_eq!(StudentStatusExportFormat::parse_choice(1), Some(StudentStatusExportFormat::Markdown));
    assert_eq!(StudentStatusExportFormat::parse_choice(2), Some(StudentStatusExportFormat::Html));
    assert_eq!(StudentStatusExportFormat::parse_choice(0), None);
    assert_eq!(StudentStatusExportFormat::Markdown.name(), "Markdown");
    assert_eq!(StudentStatusExportFormat::Html.name(), "Html");
    assert_eq!(StudentStatusExportFormat::Markdown.extension(), "md");
    assert_eq!(StudentStatusExportFormat::Html.extension(), "html");
    assert_eq!(UpdateStudentOption::parse_choice(1), Some(UpdateStudentOption::UpdateName));
    assert_eq!(UpdateStudentOption::parse_choice(9), Some(UpdateStudentOption::UpdateEnrolledYear));
    assert_eq!(UpdateStudentOption::parse_choice(11), Some(UpdateStudentOption::Done));
    assert_eq!(UpdateStudentOption::parse_choice(12), None);
    assert_eq!(UpdateStudentOption::parse_choice(0), None);
}

#[test]
fn console_answers() {
    assert_eq!(boolean_choice(1), Some(true));
    assert_eq!(boolean_choice(2), Some(false));
    assert_eq!(boolean_choice(3), None);
    assert_eq!(judge_number("2000", 1990, 2025), NumberInput::Accepted(2000));
    assert_eq!(judge_number("1990", 1990, 2025), NumberInput::Accepted(1990));
    assert_eq!(judge_number("2026", 1990, 2025), NumberInput::OutOfRange(2026));
    assert_eq!(judge_number("abc", 1990, 2025), NumberInput::NotANumber);
}

#[test]
fn blank_student() {
    let s = Student::new();
    assert_eq!(s.id, "");
    assert_eq!(s.enrolled_year, 2025);
    assert_eq!(s.gender, Gender::Male);
    assert_eq!(s.faculty.id, 1);
    assert_eq!(s.program.id, 1);
    assert_eq!(s.status.id, 1);
    assert_eq!(s.faculty.name, "");
    assert_eq!(s.name, "");
}

#[test]
fn fixed_rule_checks() {
    assert_eq!(fixed_rules::validate_phone("0908063538"), None);
    assert_eq!(fixed_rules::validate_phone("09080635a8"), Some(fixed_rules::PHONE_NOT_NUMBER_MESSAGE));
    assert_eq!(fixed_rules::validate_phone("123"), Some(fixed_rules::PHONE_LENGTH_MESSAGE));
    assert_eq!(fixed_rules::validate_email("a@b.c"), None);
    assert_eq!(fixed_rules::validate_email("@b.c"), Some(fixed_rules::EMAIL_INVALID_MESSAGE));
    assert_eq!(fixed_rules::validate_email("a@"), Some(fixed_rules::EMAIL_INVALID_MESSAGE));
    assert_eq!(fixed_rules::validate_email("a@bc"), Some(fixed_rules::EMAIL_INVALID_MESSAGE));
    assert_eq!(fixed_rules::validate_email("abc"), Some(fixed_rules::EMAIL_INVALID_MESSAGE));
    assert_eq!(fixed_rules::validate_date("130/12/2003"), Some(DATE_INVALID_MESSAGE));
    assert_eq!(fixed_rules::validate_date("13/12/2003"), None);
    assert_eq!(fixed_rules::validate_date("x"), Some(DATE_FORMAT_MESSAGE));
    assert_eq!(fixed_rules::validate_id("x"), None);
}

#[test]
fn main_menu_choices() {
    assert_eq!(OperationChoice::parse_choice(1), Some(OperationChoice::AddNewStudent));
    assert_eq!(OperationChoice::parse_choice(15), Some(OperationChoice::ExportStudentStatus));
    assert_eq!(OperationChoice::parse_choice(16), Some(OperationChoice::Config));
    assert_eq!(OperationChoice::parse_choice(17), Some(OperationChoice::Quit));
    assert_eq!(OperationChoice::parse_choice(0), None);
    assert_eq!(OperationChoice::parse_choice(18), None);
}
