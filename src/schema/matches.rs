//! Matches, alliances and rounds.

use vstd::prelude::*;
use vstd::string::*;
use crate::text::{int_text, format_int, ParamText};
use super::IdInfo;

verus! {

/// One match of a division.
#[derive(Clone, Debug, PartialEq)]
pub struct Match {
    pub id: i32,
    pub event: IdInfo,
    pub division: IdInfo,
    pub round: i32,
    pub instance: i32,
    pub matchnum: i32,
    pub scheduled: String,
    pub started: String,
    pub field: String,
    pub scored: bool,
    pub name: String,
    pub alliances: Vec<Alliance>,
}

/// The side of an alliance.
#[derive(Clone, Copy, Debug, PartialEq, Eq, Structural)]
pub enum AllianceColor {
    Red,
    Blue,
}

/// One alliance of a match.
#[derive(Clone, Debug, PartialEq)]
pub struct Alliance {
    pub color: AllianceColor,
    pub score: i32,
    pub teams: Vec<AllianceTeam>,
}

/// A team of an alliance.
#[derive(Clone, Debug, PartialEq)]
pub struct AllianceTeam {
    pub team: IdInfo,
    pub sitting: bool,
}

/// The round of a match.
#[derive(Clone, Copy, Debug, PartialEq, Eq, Structural)]
pub enum MatchRound {
    Practice,
    Qualification,
    Quarterfinals,
    Semifinals,
    Finals,
    RoundOf16,
}

/// The display name of a MatchRound.
pub open spec fn match_round_text(x: MatchRound) -> Seq<char> {
    match x {
        MatchRound::Practice => "Practice"@,
        MatchRound::Qualification => "Qualification"@,
        MatchRound::Quarterfinals => "Quarterfinals"@,
        MatchRound::Semifinals => "Semifinals"@,
        MatchRound::Finals => "Finals"@,
        MatchRound::RoundOf16 => "Round of 16"@,
    }
}

impl MatchRound {
    /// The display name.
    pub fn to_string(&self) -> (r: String)
        ensures
            r@ == match_round_text(*self),
    {
        let s: &str = match self {
            MatchRound::Practice => "Practice",
            MatchRound::Qualification => "Qualification",
            MatchRound::Quarterfinals => "Quarterfinals",
            MatchRound::Semifinals => "Semifinals",
            MatchRound::Finals => "Finals",
            MatchRound::RoundOf16 => "Round of 16",
        };
        String::from_str(s)
    }
}

/// The number by which the service identifies a round.
pub open spec fn round_number(x: MatchRound) -> int {
    match x {
        MatchRound::Practice => 1,
        MatchRound::Qualification => 2,
        MatchRound::Quarterfinals => 3,
        MatchRound::Semifinals => 4,
        MatchRound::Finals => 5,
        MatchRound::RoundOf16 => 6,
    }
}

impl MatchRound {
    /// The number by which the service identifies the round.
    pub fn number(&self) -> (r: i32)
        ensures
            r as int == round_number(*self),
    {
        match self {
            MatchRound::Practice => 1,
            MatchRound::Qualification => 2,
            MatchRound::Quarterfinals => 3,
            MatchRound::Semifinals => 4,
            MatchRound::Finals => 5,
            MatchRound::RoundOf16 => 6,
        }
    }
}

/// A round stands in a query by its number.
impl ParamText for MatchRound {
    open spec fn text_view(&self) -> Seq<char> {
        int_text(round_number(*self))
    }

    fn param_text(&self) -> (r: String) {
        format_int(self.number())
    }
}

} // verus!
