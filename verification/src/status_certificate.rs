//! The certificate that states a student's status, filled from a template.
use vstd::prelude::*;
use crate::data::gender::Gender;
use crate::data::student::Student;
use crate::io::template::{Template, RenderError, Rendering, rendering, pairs_view, error_is, lookup, lemma_lookup_last_pair};
use crate::number::{format_i32, spec_format_i32};

verus! {

pub const SCHOOL_NAME: &'static str = "UNIVERSITY OF SCIENCE - VNUHCM";

pub const SCHOOL_ADDRESS: &'static str = "227 Nguyễn Văn Cừ, Phường 4, Quận 5, Hồ Chí Minh, Việt Nam";

pub const SCHOOL_PHONE_NUMBER: &'static str = "1900999978";

pub const SCHOOL_EMAIL: &'static str = "info@hcmus.edu.vn";

pub const SCHOOL_DISPLAY_NAME: &'static str = "University of Science - VNUHCM";

/// How long a certificate stays valid, in seconds (two weeks).
pub const VALID_DURATION: u64 = 1209600;

/// The name shown for a gender.
pub open spec fn gender_name(g: Gender) -> Seq<char> {
    match g {
        Gender::Male => "Nam"@,
        Gender::Female => "Nữ"@,
    }
}

/// The values of the placeholders of a certificate for `student`.
pub open spec fn certificate_values(
    student: Student,
    reason: Seq<char>,
    expired_date: Seq<char>,
    issued_date: Seq<char>,
) -> Seq<(Seq<char>, Seq<char>)> {
    seq![
        ("school_name_upper_case"@, SCHOOL_NAME@),
        ("school_address"@, SCHOOL_ADDRESS@),
        ("school_phone_number"@, SCHOOL_PHONE_NUMBER@),
        ("school_email"@, SCHOOL_EMAIL@),
        ("school_name"@, SCHOOL_DISPLAY_NAME@),
        ("student_name"@, student.name@),
        ("student_id"@, student.id@),
        ("student_dob"@, student.dob@),
        ("student_gender"@, gender_name(student.gender)),
        ("student_faculty"@, student.faculty.name@),
        ("student_program"@, student.program.name@),
        ("student_enrolled_year"@, spec_format_i32(student.enrolled_year)),
        ("student_status"@, student.status.name@),
        ("issue_reason"@, reason),
        ("expired_date"@, expired_date),
        ("issued_date"@, issued_date),
    ]
}

/// Fills the certificate template `template` for `student`, issued for
/// `reason` on `issued_date` and valid until `expired_date`.
pub fn status_certificate(
    template: &str,
    student: &Student,
    reason: &str,
    expired_date: &str,
    issued_date: &str,
) -> (r: Result<String, RenderError>)
    ensures
        r matches Ok(s) ==> rendering(
            template@,
            certificate_values(*student, reason@, expired_date@, issued_date@),
        ) == Rendering::Text(s@),
        r matches Err(e) ==> error_is(
            e,
            rendering(template@, certificate_values(*student, reason@, expired_date@, issued_date@)),
        ),
{
    let year = format_i32(student.enrolled_year);
    let values: Vec<(&str, &str)> = vec![
        ("school_name_upper_case", SCHOOL_NAME),
        ("school_address", SCHOOL_ADDRESS),
        ("school_phone_number", SCHOOL_PHONE_NUMBER),
        ("school_email", SCHOOL_EMAIL),
        ("school_name", SCHOOL_DISPLAY_NAME),
        ("student_name", student.name.as_str()),
        ("student_id", student.id.as_str()),
        ("student_dob", student.dob.as_str()),
        ("student_gender", student.gender.value()),
        ("student_faculty", student.faculty.name.as_str()),
        ("student_program", student.program.name.as_str()),
        ("student_enrolled_year", year.as_str()),
        ("student_status", student.status.name.as_str()),
        ("issue_reason", reason),
        ("expired_date", expired_date),
        ("issued_date", issued_date),
    ];
    assert(pairs_view(values@) =~= certificate_values(*student, reason@, expired_date@, issued_date@));
    Template::try_render(template, values.as_slice())
}

/// Each placeholder of the certificate is filled from its own source: the
/// school's details, the student's own fields, the reason and the two dates.
pub proof fn lemma_certificate_placeholders(
    student: Student,
    reason: Seq<char>,
    expired_date: Seq<char>,
    issued_date: Seq<char>,
)
    ensures
        ({
            let v = certificate_values(student, reason, expired_date, issued_date);
            &&& lookup(v, "school_name_upper_case"@) == Some("UNIVERSITY OF SCIENCE - VNUHCM"@)
            &&& lookup(v, "school_name"@) == Some("University of Science - VNUHCM"@)
            &&& lookup(v, "school_phone_number"@) == Some("1900999978"@)
            &&& lookup(v, "school_email"@) == Some("info@hcmus.edu.vn"@)
            &&& lookup(v, "student_gender"@) == Some(match student.gender {
                Gender::Male => "Nam"@,
                Gender::Female => "Nữ"@,
            })
        }),
        ({
            let v = certificate_values(student, reason, expired_date, issued_date);
            &&& lookup(v, "school_address"@) == Some(SCHOOL_ADDRESS@)
            &&& lookup(v, "student_name"@) == Some(student.name@)
            &&& lookup(v, "student_id"@) == Some(student.id@)
            &&& lookup(v, "student_dob"@) == Some(student.dob@)
            &&& lookup(v, "student_faculty"@) == Some(student.faculty.name@)
            &&& lookup(v, "student_program"@) == Some(student.program.name@)
            &&& lookup(v, "student_enrolled_year"@) == Some(spec_format_i32(student.enrolled_year))
            &&& lookup(v, "student_status"@) == Some(student.status.name@)
            &&& lookup(v, "issue_reason"@) == Some(reason)
            &&& lookup(v, "expired_date"@) == Some(expired_date)
            &&& lookup(v, "issued_date"@) == Some(issued_date)
        }),
{
    let v = certificate_values(student, reason, expired_date, issued_date);
    reveal_strlit("school_name_upper_case");
    reveal_strlit("school_address");
    reveal_strlit("school_phone_number");
    reveal_strlit("school_email");
    reveal_strlit("school_name");
    reveal_strlit("student_name");
    reveal_strlit("student_id");
    reveal_strlit("student_dob");
    reveal_strlit("student_gender");
    reveal_strlit("student_faculty");
    reveal_strlit("student_program");
    reveal_strlit("student_enrolled_year");
    reveal_strlit("student_status");
    reveal_strlit("issue_reason");
    reveal_strlit("expired_date");
    reveal_strlit("issued_date");
    assert forall|j: int| 0 < j < 16 implies (#[trigger] v[j]).0 != "school_name_upper_case"@ by {
        assert(v[j].0.len() != "school_name_upper_case"@.len() || v[j].0[8] != "school_name_upper_case"@[8] || v[j].0[9] != "school_name_upper_case"@[9] || v[j].0[1] != "school_name_upper_case"@[1] || v[j].0[7] != "school_name_upper_case"@[7]);
    }
    lemma_lookup_last_pair(v, "school_name_upper_case"@, 0);
    assert forall|j: int| 1 < j < 16 implies (#[trigger] v[j]).0 != "school_address"@ by {
        assert(v[j].0.len() != "school_address"@.len() || v[j].0[8] != "school_address"@[8] || v[j].0[9] != "school_address"@[9] || v[j].0[1] != "school_address"@[1] || v[j].0[7] != "school_address"@[7]);
    }
    lemma_lookup_last_pair(v, "school_address"@, 1);
    assert forall|j: int| 2 < j < 16 implies (#[trigger] v[j]).0 != "school_phone_number"@ by {
        assert(v[j].0.len() != "school_phone_number"@.len() || v[j].0[8] != "school_phone_number"@[8] || v[j].0[9] != "school_phone_number"@[9] || v[j].0[1] != "school_phone_number"@[1] || v[j].0[7] != "school_phone_number"@[7]);
    }
    lemma_lookup_last_pair(v, "school_phone_number"@, 2);
    assert forall|j: int| 3 < j < 16 implies (#[trigger] v[j]).0 != "school_email"@ by {
        assert(v[j].0.len() != "school_email"@.len() || v[j].0[8] != "school_email"@[8] || v[j].0[9] != "school_email"@[9] || v[j].0[1] != "school_email"@[1] || v[j].0[7] != "school_email"@[7]);
    }
    lemma_lookup_last_pair(v, "school_email"@, 3);
    assert forall|j: int| 4 < j < 16 implies (#[trigger] v[j]).0 != "school_name"@ by {
        assert(v[j].0.len() != "school_name"@.len() || v[j].0[8] != "school_name"@[8] || v[j].0[9] != "school_name"@[9] || v[j].0[1] != "school_name"@[1] || v[j].0[7] != "school_name"@[7]);
    }
    lemma_lookup_last_pair(v, "school_name"@, 4);
    assert forall|j: int| 5 < j < 16 implies (#[trigger] v[j]).0 != "student_name"@ by {
        assert(v[j].0.len() != "student_name"@.len() || v[j].0[8] != "student_name"@[8] || v[j].0[9] != "student_name"@[9] || v[j].0[1] != "student_name"@[1] || v[j].0[7] != "student_name"@[7]);
    }
    lemma_lookup_last_pair(v, "student_name"@, 5);
    assert forall|j: int| 6 < j < 16 implies (#[trigger] v[j]).0 != "student_id"@ by {
        assert(v[j].0.len() != "student_id"@.len() || v[j].0[8] != "student_id"@[8] || v[j].0[9] != "student_id"@[9] || v[j].0[1] != "student_id"@[1] || v[j].0[7] != "student_id"@[7]);
    }
    lemma_lookup_last_pair(v, "student_id"@, 6);
    assert forall|j: int| 7 < j < 16 implies (#[trigger] v[j]).0 != "student_dob"@ by {
        assert(v[j].0.len() != "student_dob"@.len() || v[j].0[8] != "student_dob"@[8] || v[j].0[9] != "student_dob"@[9] || v[j].0[1] != "student_dob"@[1] || v[j].0[7] != "student_dob"@[7]);
    }
    lemma_lookup_last_pair(v, "student_dob"@, 7);
    assert forall|j: int| 8 < j < 16 implies (#[trigger] v[j]).0 != "student_gender"@ by {
        assert(v[j].0.len() != "student_gender"@.len() || v[j].0[8] != "student_gender"@[8] || v[j].0[9] != "student_gender"@[9] || v[j].0[1] != "student_gender"@[1] || v[j].0[7] != "student_gender"@[7]);
    }
    lemma_lookup_last_pair(v, "student_gender"@, 8);
    assert forall|j: int| 9 < j < 16 implies (#[trigger] v[j]).0 != "student_faculty"@ by {
        assert(v[j].0.len() != "student_faculty"@.len() || v[j].0[8] != "student_faculty"@[8] || v[j].0[9] != "student_faculty"@[9] || v[j].0[1] != "student_faculty"@[1] || v[j].0[7] != "student_faculty"@[7]);
    }
    lemma_lookup_last_pair(v, "student_faculty"@, 9);
    assert forall|j: int| 10 < j < 16 implies (#[trigger] v[j]).0 != "student_program"@ by {
        assert(v[j].0.len() != "student_program"@.len() || v[j].0[8] != "student_program"@[8] || v[j].0[9] != "student_program"@[9] || v[j].0[1] != "student_program"@[1] || v[j].0[7] != "student_program"@[7]);
    }
    lemma_lookup_last_pair(v, "student_program"@, 10);
    assert forall|j: int| 11 < j < 16 implies (#[trigger] v[j]).0 != "student_enrolled_year"@ by {
        assert(v[j].0.len() != "student_enrolled_year"@.len() || v[j].0[8] != "student_enrolled_year"@[8] || v[j].0[9] != "student_enrolled_year"@[9] || v[j].0[1] != "student_enrolled_year"@[1] || v[j].0[7] != "student_enrolled_year"@[7]);
    }
    lemma_lookup_last_pair(v, "student_enrolled_year"@, 11);
    assert forall|j: int| 12 < j < 16 implies (#[trigger] v[j]).0 != "student_status"@ by {
        assert(v[j].0.len() != "student_status"@.len() || v[j].0[8] != "student_status"@[8] || v[j].0[9] != "student_status"@[9] || v[j].0[1] != "student_status"@[1] || v[j].0[7] != "student_status"@[7]);
    }
    lemma_lookup_last_pair(v, "student_status"@, 12);
    assert forall|j: int| 13 < j < 16 implies (#[trigger] v[j]).0 != "issue_reason"@ by {
        assert(v[j].0.len() != "issue_reason"@.len() || v[j].0[8] != "issue_reason"@[8] || v[j].0[9] != "issue_reason"@[9] || v[j].0[1] != "issue_reason"@[1] || v[j].0[7] != "issue_reason"@[7]);
    }
    lemma_lookup_last_pair(v, "issue_reason"@, 13);
    assert forall|j: int| 14 < j < 16 implies (#[trigger] v[j]).0 != "expired_date"@ by {
        assert(v[j].0.len() != "expired_date"@.len() || v[j].0[8] != "expired_date"@[8] || v[j].0[9] != "expired_date"@[9] || v[j].0[1] != "expired_date"@[1] || v[j].0[7] != "expired_date"@[7]);
    }
    lemma_lookup_last_pair(v, "expired_date"@, 14);
    assert forall|j: int| 15 < j < 16 implies (#[trigger] v[j]).0 != "issued_date"@ by {
        assert(v[j].0.len() != "issued_date"@.len() || v[j].0[8] != "issued_date"@[8] || v[j].0[9] != "issued_date"@[9] || v[j].0[1] != "issued_date"@[1] || v[j].0[7] != "issued_date"@[7]);
    }
    lemma_lookup_last_pair(v, "issued_date"@, 15);
}

} // verus!
