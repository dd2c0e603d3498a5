use vstd::prelude::*;

verus! {

/// A status a student can be in (studying, graduated, ...).
pub struct Status {
    pub id: i32,
    pub name: String,
}

} // verus!
