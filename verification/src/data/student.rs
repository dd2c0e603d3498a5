use vstd::prelude::*;
use super::faculty::Faculty;
use super::gender::Gender;
use super::program::Program;
use super::status::Status;

verus! {

/// A student's record.
pub struct Student {
    pub id: String,
    pub name: String,
    pub dob: String,
    pub phone: String,
    pub address: String,
    pub email: String,
    pub status: Status,
    pub gender: Gender,
    pub faculty: Faculty,
    pub enrolled_year: i32,
    pub program: Program,
}

impl Student {
    /// A blank record, to be filled in: empty texts, male, enrolled in 2025, and
    /// the status, faculty and program of id 1 (the rows the database starts
    /// with), so that the record can be stored as it is.
    pub fn new() -> (s: Self)
        ensures
            s.id@ == Seq::<char>::empty(),
            s.name@ == Seq::<char>::empty(),
            s.dob@ == Seq::<char>::empty(),
            s.phone@ == Seq::<char>::empty(),
            s.address@ == Seq::<char>::empty(),
            s.email@ == Seq::<char>::empty(),
            s.status.id == 1 && s.status.name@ == Seq::<char>::empty(),
            s.gender == Gender::Male,
            s.faculty.id == 1 && s.faculty.name@ == Seq::<char>::empty(),
            s.enrolled_year == 2025,
            s.program.id == 1 && s.program.name@ == Seq::<char>::empty(),
    {
        Self {
            id: String::new(),
            name: String::new(),
            dob: String::new(),
            phone: String::new(),
            address: String::new(),
            email: String::new(),
            status: Status { id: 1, name: String::new() },
            gender: Gender::Male,
            faculty: Faculty { id: 1, name: String::new() },
            enrolled_year: 2025,
            program: Program { id: 1, name: String::new() },
        }
    }
}

} // verus!
