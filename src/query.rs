//! Queries of the listings that come in pages: the filter parameters plus
//! the page to fetch and the page size.

pub mod season;
pub mod team;

pub use season::{SeasonEventsQuery, SeasonsQuery};
pub use team::{
    TeamAwardsQuery, TeamEventsQuery, TeamMatchesQuery, TeamRankingsQuery, TeamSkillsQuery,
    TeamsQuery,
};

use vstd::prelude::*;
use crate::params::{keys_unique, pairs, with_entry, ParamsView, QueryKey};
use crate::text::int_text;

verus! {

/// A query of a listing that comes in pages.
pub trait PaginatedQuery: Sized + View<V = ParamsView> {
    /// Sets `page`, the 1-based page to fetch.
    fn page(self, page: i32) -> (r: Self)
        ensures
            r@ == with_entry(self@, QueryKey::Page, int_text(page as int)),
            keys_unique(pairs(r@)),
    ;

    /// Sets `per_page`, the page size.
    fn per_page(self, per_page: i32) -> (r: Self)
        ensures
            r@ == with_entry(self@, QueryKey::PerPage, int_text(per_page as int)),
            keys_unique(pairs(r@)),
    ;
}

} // verus!
