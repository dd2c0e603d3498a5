use vstd::prelude::*;

verus! {

/// A study program.
pub struct Program {
    pub id: i64,
    pub name: String,
}

} // verus!
