use student_management::business_config::{
    validate_email_domain, validate_phone_number_pattern, BusinessRule,
};
use student_management::date::validate_date;
use student_management::io::template::Template;
use student_management::validation::{validate_email, validate_phone};

#[test]
fn test_validate_email_domain_valid() {
    if let Some(_) = validate_email_domain("fit.hcmus.edu.vn") {
        panic!("Email domain must match here");
    }
}

#[test]
fn test_validate_email_domain_invalid() {
    if let None = validate_email_domain("@fit.hcmus.edu.vn") {
        panic!("Email domain must not match here");
    }
}

#[test]
fn test_validate_phone_pattern_invalid() {
    if let None = validate_phone_number_pattern("zxc123") {
        panic!("Phone pattern must not match here");
    }
}

#[test]
fn test_validate_phone_pattern_valid() {
    if let Some(_) = validate_phone_number_pattern("0[3|5|7|8|9]xxxxxxxx") {
        panic!("Phone pattern must match here");
    }
}

#[test]
fn test_validate_phone_valid() {
    let mut rules = BusinessRule::new();
    rules.set_phone_number_pattern("0[3|5|7|8|9]xxxxxxxx".to_string());
    if let Some(_) = validate_phone(&rules, "0908063538") {
        panic!("Phone number must match");
    }
}

#[test]
fn test_validate_phone_invalid() {
    let mut rules = BusinessRule::new();
    let test = "0[3|5|7|8|9]xxxxxxxx".to_owned();
    rules.set_phone_number_pattern(test);
    if let None = validate_phone(&rules, "432") {
        panic!("Phone number must not match here");
    }
}

#[test]
fn test_validate_email_invalid() {
    let mut rules = BusinessRule::new();
    rules.set_email("fit.hcmus.edu.vn".to_string());
    if None == validate_email(&rules, "tuong@gmail.com") {
        panic!("Email must not match here");
    }
}

#[test]
fn test_validate_email_valid() {
    let mut rules = BusinessRule::new();
    rules.set_email("fit.hcmus.edu.vn".to_string());
    if let Some(_) = validate_email(&rules, "tuong@fit.hcmus.edu.vn") {
        panic!("Email must match here");
    }
}

#[test]
fn test_validate_date_invalid() {
    if let None = validate_date("130/12/2003") {
        panic!("Must be invalid date");
    }
}

#[test]
fn test_validate_date_valid() {
    if let Some(_) = validate_date("13/12/2003") {
        panic!("Must be invalid date");
    }
}

#[test]
fn test_tempate_render_valid() {
    let rendered = Template::render("${tuong}$", &[("tuong", "123")]);
    assert_eq!(rendered, "123");
}
