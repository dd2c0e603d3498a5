use vstd::prelude::*;

verus! {

/// A student's gender. In the database it is stored as its code: 1 for
/// `Male`, 2 for `Female`.
#[derive(Clone, Copy, Debug, PartialEq, Eq, Structural)]
pub enum Gender {
    Male,
    Female,
}

/// The code under which a gender is stored and offered as a choice.
pub open spec fn gender_code(g: Gender) -> i32 {
    match g {
        Gender::Male => 1,
        Gender::Female => 2,
    }
}

/// The gender that the choice `choice` stands for.
pub open spec fn gender_of_choice(choice: i32) -> Option<Gender> {
    if choice == 1 {
        Some(Gender::Male)
    } else if choice == 2 {
        Some(Gender::Female)
    } else {
        None
    }
}

impl Gender {
    /// The name shown for this gender.
    pub fn value(&self) -> (r: &'static str)
        ensures
            r@ == match *self {
                Gender::Male => "Nam"@,
                Gender::Female => "Nữ"@,
            },
    {
        match *self {
            Gender::Male => "Nam",
            Gender::Female => "Nữ",
        }
    }

    /// The code under which this gender is stored.
    pub fn code(&self) -> (r: i32)
        ensures
            r == gender_code(*self),
    {
        match *self {
            Gender::Male => 1,
            Gender::Female => 2,
        }
    }

    /// The gender chosen as `choice` in the menu (1 or 2), or read back from
    /// its stored code.
    pub fn parse_choice(choice: i32) -> (r: Option<Gender>)
        ensures
            r == gender_of_choice(choice),
    {
        match choice {
            1 => Some(Gender::Male),
            2 => Some(Gender::Female),
            _ => None,
        }
    }
}

/// A gender stored under its code reads back as the same gender.
pub proof fn lemma_gender_code_roundtrip(g: Gender)
    ensures
        gender_of_choice(gender_code(g)) == Some(g),
{
}

/// The codes are exactly the choices the menu accepts, and no two genders share one.
pub proof fn lemma_gender_choices(choice: i32)
    ensures
        gender_of_choice(choice) is Some <==> (choice == 1 || choice == 2),
        gender_of_choice(choice) matches Some(g) ==> gender_code(g) == choice,
{
}

} // verus!
