//! The menus of the program whose choices carry no data.
use vstd::prelude::*;

verus! {

/// A field of a student's record to change, or the end of the changes.
#[derive(Clone, Copy, Debug, PartialEq, Eq, Structural)]
pub enum UpdateStudentOption {
    UpdateName,
    UpdateDob,
    UpdatePhone,
    UpdateAddress,
    UpdateEmail,
    UpdateStatus,
    UpdateGender,
    UpdateFaculty,
    UpdateEnrolledYear,
    UpdateProgram,
    Done,
}

/// The option offered under the number `choice`.
pub open spec fn update_option_of(choice: i32) -> Option<UpdateStudentOption> {
    if choice == 1 {
        Some(UpdateStudentOption::UpdateName)
    } else if choice == 2 {
        Some(UpdateStudentOption::UpdateDob)
    } else if choice == 3 {
        Some(UpdateStudentOption::UpdatePhone)
    } else if choice == 4 {
        Some(UpdateStudentOption::UpdateAddress)
    } else if choice == 5 {
        Some(UpdateStudentOption::UpdateEmail)
    } else if choice == 6 {
        Some(UpdateStudentOption::UpdateStatus)
    } else if choice == 7 {
        Some(UpdateStudentOption::UpdateGender)
    } else if choice == 8 {
        Some(UpdateStudentOption::UpdateFaculty)
    } else if choice == 9 {
        Some(UpdateStudentOption::UpdateEnrolledYear)
    } else if choice == 10 {
        Some(UpdateStudentOption::UpdateProgram)
    } else if choice == 11 {
        Some(UpdateStudentOption::Done)
    } else {
        None
    }
}

impl UpdateStudentOption {
    /// The option chosen as `choice` (1 to 11) in the menu.
    pub fn parse_choice(choice: i32) -> (r: Option<UpdateStudentOption>)
        ensures
            r == update_option_of(choice),
    {
        match choice {
            1 => Some(UpdateStudentOption::UpdateName),
            2 => Some(UpdateStudentOption::UpdateDob),
            3 => Some(UpdateStudentOption::UpdatePhone),
            4 => Some(UpdateStudentOption::UpdateAddress),
            5 => Some(UpdateStudentOption::UpdateEmail),
            6 => Some(UpdateStudentOption::UpdateStatus),
            7 => Some(UpdateStudentOption::UpdateGender),
            8 => Some(UpdateStudentOption::UpdateFaculty),
            9 => Some(UpdateStudentOption::UpdateEnrolledYear),
            10 => Some(UpdateStudentOption::UpdateProgram),
            11 => Some(UpdateStudentOption::Done),
            _ => None,
        }
    }
}

/// The formats a certificate of a student's status can be written in.
#[derive(Clone, Copy, Debug, PartialEq, Eq, Structural)]
pub enum StudentStatusExportFormat {
    Markdown,
    Html,
}

impl StudentStatusExportFormat {
    /// The name of the format.
    pub fn name(&self) -> (r: &'static str)
        ensures
            r@ == match *self {
                StudentStatusExportFormat::Markdown => "Markdown"@,
                StudentStatusExportFormat::Html => "Html"@,
            },
    {
        match *self {
            StudentStatusExportFormat::Markdown => "Markdown",
            StudentStatusExportFormat::Html => "Html",
        }
    }

    /// The file-name extension of the format.
    pub fn extension(&self) -> (r: &'static str)
        ensures
            r@ == match *self {
                StudentStatusExportFormat::Markdown => "md"@,
                StudentStatusExportFormat::Html => "html"@,
            },
    {
        match *self {
            StudentStatusExportFormat::Markdown => "md",
            StudentStatusExportFormat::Html => "html",
        }
    }

    /// The format chosen as `choice` in the menu: 1 for Markdown, 2 for HTML.
    pub fn parse_choice(choice: i32) -> (r: Option<StudentStatusExportFormat>)
        ensures
            r == (if choice == 1 {
                Some(StudentStatusExportFormat::Markdown)
            } else if choice == 2 {
                Some(StudentStatusExportFormat::Html)
            } else {
                None
            }),
    {
        match choice {
            1 => Some(StudentStatusExportFormat::Markdown),
            2 => Some(StudentStatusExportFormat::Html),
            _ => None,
        }
    }
}

/// The actions of the main menu, in the order they are offered.
#[derive(Clone, Copy, Debug, PartialEq, Eq, Structural)]
pub enum OperationChoice {
    AddNewStudent,
    DeleteStudent,
    UpdateStudent,
    SearchStudent,
    AddNewFaculty,
    AddNewStatus,
    AddNewProgram,
    UpdateFaculty,
    UpdateStatus,
    UpdateProgram,
    SearchByFaculty,
    SearchByFacultyAndName,
    Export,
    Import,
    ExportStudentStatus,
    Config,
    Quit,
}

/// The action offered under the number `choice`.
pub open spec fn operation_of(choice: i32) -> Option<OperationChoice> {
    match choice {
        1 => Some(OperationChoice::AddNewStudent),
        2 => Some(OperationChoice::DeleteStudent),
        3 => Some(OperationChoice::UpdateStudent),
        4 => Some(OperationChoice::SearchStudent),
        5 => Some(OperationChoice::AddNewFaculty),
        6 => Some(OperationChoice::AddNewStatus),
        7 => Some(OperationChoice::AddNewProgram),
        8 => Some(OperationChoice::UpdateFaculty),
        9 => Some(OperationChoice::UpdateStatus),
        10 => Some(OperationChoice::UpdateProgram),
        11 => Some(OperationChoice::SearchByFaculty),
        12 => Some(OperationChoice::SearchByFacultyAndName),
        13 => Some(OperationChoice::Export),
        14 => Some(OperationChoice::Import),
        15 => Some(OperationChoice::ExportStudentStatus),
        16 => Some(OperationChoice::Config),
        17 => Some(OperationChoice::Quit),
        _ => None,
    }
}

impl OperationChoice {
    /// The action chosen as `choice` (1 to 17) in the main menu.
    pub fn parse_choice(choice: i32) -> (r: Option<OperationChoice>)
        ensures
            r == operation_of(choice),
    {
        match choice {
            1 => Some(OperationChoice::AddNewStudent),
            2 => Some(OperationChoice::DeleteStudent),
            3 => Some(OperationChoice::UpdateStudent),
            4 => Some(OperationChoice::SearchStudent),
            5 => Some(OperationChoice::AddNewFaculty),
            6 => Some(OperationChoice::AddNewStatus),
            7 => Some(OperationChoice::AddNewProgram),
            8 => Some(OperationChoice::UpdateFaculty),
            9 => Some(OperationChoice::UpdateStatus),
            10 => Some(OperationChoice::UpdateProgram),
            11 => Some(OperationChoice::SearchByFaculty),
            12 => Some(OperationChoice::SearchByFacultyAndName),
            13 => Some(OperationChoice::Export),
            14 => Some(OperationChoice::Import),
            15 => Some(OperationChoice::ExportStudentStatus),
            16 => Some(OperationChoice::Config),
            17 => Some(OperationChoice::Quit),
            _ => None,
        }
    }
}

} // verus!
