//! The records that the service returns, and the page envelope around
//! listings.

pub mod award;
pub mod event;
pub mod matches;
pub mod program;
pub mod season;
pub mod skill;
pub mod team;

pub use award::{Award, AwardClassification, AwardDesignation, TeamAwardWinner};
pub use event::{Division, EventLevel, EventType};
pub use matches::{Alliance, AllianceColor, AllianceTeam, Match, MatchRound};
pub use program::Program;
pub use season::Season;
pub use skill::{Skill, SkillType};
pub use team::Grade;

use vstd::prelude::*;
use crate::paths::{endpoint_of, trim_prefix, V2_API_BASE};

verus! {

/// The metadata of one page of a listing.
#[derive(Clone, Debug, PartialEq)]
pub struct PageMeta {
    pub current_page: i32,
    pub first_page_url: String,
    pub from: Option<i32>,
    pub to: Option<i32>,
    pub last_page: i32,
    pub last_page_url: String,
    pub prev_page_url: Option<String>,
    pub next_page_url: Option<String>,
    pub path: String,
    pub per_page: i32,
    pub total: i32,
}

fn optional_endpoint(url: &Option<String>) -> (r: Option<String>)
    ensures
        r is Some <==> url is Some,
        r matches Some(e) ==> e@ == trim_prefix(url->0@, V2_API_BASE@),
{
    match url {
        Some(u) => Some(endpoint_of(u.as_str())),
        None => None,
    }
}

impl PageMeta {
    /// The endpoint of the previous page, if there is one.
    pub fn prev_page_endpoint(&self) -> (r: Option<String>)
        ensures
            r is Some <==> self.prev_page_url is Some,
            r matches Some(e) ==> e@ == trim_prefix(self.prev_page_url->0@, V2_API_BASE@),
    {
        optional_endpoint(&self.prev_page_url)
    }

    /// The endpoint of the next page, if there is one.
    pub fn next_page_endpoint(&self) -> (r: Option<String>)
        ensures
            r is Some <==> self.next_page_url is Some,
            r matches Some(e) ==> e@ == trim_prefix(self.next_page_url->0@, V2_API_BASE@),
    {
        optional_endpoint(&self.next_page_url)
    }

    /// The endpoint of the first page.
    pub fn first_page_endpoint(&self) -> (r: String)
        ensures
            r@ == trim_prefix(self.first_page_url@, V2_API_BASE@),
    {
        endpoint_of(self.first_page_url.as_str())
    }

    /// The endpoint of the last page.
    pub fn last_page_endpoint(&self) -> (r: String)
        ensures
            r@ == trim_prefix(self.last_page_url@, V2_API_BASE@),
    {
        endpoint_of(self.last_page_url.as_str())
    }
}

/// One page of a listing: its metadata and its items in server order.
#[derive(Clone, Debug, PartialEq)]
pub struct PaginatedResponse<T> {
    pub meta: PageMeta,
    pub data: Vec<T>,
}

/// An id with a name, and sometimes a short code.
#[derive(Clone, Debug, PartialEq, Eq)]
pub struct IdInfo {
    pub id: i32,
    pub name: String,
    pub code: Option<String>,
}

} // verus!
