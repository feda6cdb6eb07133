//! Seasons.

use vstd::prelude::*;
use super::IdInfo;

verus! {

/// A competition season of a program.
#[derive(Clone, Debug, PartialEq)]
pub struct Season {
    pub id: i32,
    pub name: String,
    pub program: IdInfo,
    pub start: String,
    pub end: String,
    pub years_start: i32,
    pub years_end: i32,
}

} // verus!
