//! Programs.

use vstd::prelude::*;

verus! {

/// A competition program.
#[derive(Clone, Debug, PartialEq)]
pub struct Program {
    pub id: i32,
    pub name: String,
    pub abbr: String,
}

} // verus!
