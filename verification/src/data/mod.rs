pub mod faculty;
pub mod gender;
pub mod program;
pub mod status;
pub mod student;
