//! Awards.

use vstd::prelude::*;
use vstd::string::*;
use super::IdInfo;

verus! {

/// A team that won an award, with its division.
#[derive(Clone, Debug, PartialEq)]
pub struct TeamAwardWinner {
    pub division: IdInfo,
    pub team: IdInfo,
}

/// How far an award's winner went.
#[derive(Clone, Copy, Debug, PartialEq, Eq, Structural)]
pub enum AwardClassification {
    Champion,
    Finalist,
    Semifinalist,
    Quarterfinalist,
}

/// The display name of a AwardClassification.
pub open spec fn award_classification_text(x: AwardClassification) -> Seq<char> {
    match x {
        AwardClassification::Champion => "Champion"@,
        AwardClassification::Finalist => "Finalist"@,
        AwardClassification::Semifinalist => "Semifinalist"@,
        AwardClassification::Quarterfinalist => "Quarterfinalist"@,
    }
}

impl AwardClassification {
    /// The display name.
    pub fn to_string(&self) -> (r: String)
        ensures
            r@ == award_classification_text(*self),
    {
        let s: &str = match self {
            AwardClassification::Champion => "Champion",
            AwardClassification::Finalist => "Finalist",
            AwardClassification::Semifinalist => "Semifinalist",
            AwardClassification::Quarterfinalist => "Quarterfinalist",
        };
        String::from_str(s)
    }
}

/// What an award is given for.
#[derive(Clone, Copy, Debug, PartialEq, Eq, Structural)]
pub enum AwardDesignation {
    Tournament,
    Division,
}

/// The display name of a AwardDesignation.
pub open spec fn award_designation_text(x: AwardDesignation) -> Seq<char> {
    match x {
        AwardDesignation::Tournament => "Tournament"@,
        AwardDesignation::Division => "Division"@,
    }
}

impl AwardDesignation {
    /// The display name.
    pub fn to_string(&self) -> (r: String)
        ensures
            r@ == award_designation_text(*self),
    {
        let s: &str = match self {
            AwardDesignation::Tournament => "Tournament",
            AwardDesignation::Division => "Division",
        };
        String::from_str(s)
    }
}

/// An award of an event.
#[derive(Clone, Debug, PartialEq)]
pub struct Award {
    pub id: i32,
    pub event: IdInfo,
    pub order: i32,
    pub title: String,
    pub qualifications: Vec<String>,
    pub designcation: Option<AwardDesignation>,
    pub classification: Option<AwardClassification>,
    pub team_winners: Vec<TeamAwardWinner>,
    pub individual_winners: Vec<String>,
}

} // verus!
