use vstd::prelude::*;

verus! {

/// A faculty of the school.
pub struct Faculty {
    pub id: i32,
    pub name: String,
}

} // verus!
