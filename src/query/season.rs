//! Queries of the season listings.

use vstd::prelude::*;
use crate::schema::event::{EventLevel, event_level_text};
use crate::params::{keys_unique, no_params, pairs, render, with_entry, ParamsView, QueryKey, QueryParams};
use crate::text::{bool_text, format_bool, format_int, int_text, item_texts, joined, list_text};
use super::PaginatedQuery;

verus! {

/// Query parameters for the `/seasons` listing.
#[derive(Clone, Debug, PartialEq)]
pub struct SeasonsQuery {
    query: QueryParams,
}

impl View for SeasonsQuery {
    type V = ParamsView;

    closed spec fn view(&self) -> ParamsView {
        self.query@
    }
}

impl Default for SeasonsQuery {
    fn default() -> (r: Self)
        ensures
            r@ == no_params(),
            keys_unique(pairs(r@)),
    {
        Self::new()
    }
}

impl SeasonsQuery {
    /// No parameters.
    pub fn new() -> (r: Self)
        ensures
            r@ == no_params(),
            keys_unique(pairs(r@)),
    {
        Self { query: QueryParams::new() }
    }

    /// Sets the `id[]` parameter to the given value.
    pub fn id(self, id: i32) -> (r: Self)
        ensures
            r@ == with_entry(self@, QueryKey::Id, int_text(id as int)),
            keys_unique(pairs(r@)),
    {
        Self { query: self.query.with(QueryKey::Id, format_int(id)) }
    }

    /// Sets the `id[]` parameter to the given values, separated by commas.
    pub fn ids(self, ids: &[i32]) -> (r: Self)
        ensures
            r@ == with_entry(self@, QueryKey::Id, joined(item_texts(ids@), ","@)),
            keys_unique(pairs(r@)),
    {
        Self { query: self.query.with(QueryKey::Id, list_text(ids)) }
    }

    /// Sets the `program[]` parameter to the given value.
    pub fn program(self, program: i32) -> (r: Self)
        ensures
            r@ == with_entry(self@, QueryKey::Program, int_text(program as int)),
            keys_unique(pairs(r@)),
    {
        Self { query: self.query.with(QueryKey::Program, format_int(program)) }
    }

    /// Sets the `program[]` parameter to the given values, separated by commas.
    pub fn programs(self, programs: &[i32]) -> (r: Self)
        ensures
            r@ == with_entry(self@, QueryKey::Program, joined(item_texts(programs@), ","@)),
            keys_unique(pairs(r@)),
    {
        Self { query: self.query.with(QueryKey::Program, list_text(programs)) }
    }

    /// Sets the `team[]` parameter to the given value.
    pub fn team(self, team: i32) -> (r: Self)
        ensures
            r@ == with_entry(self@, QueryKey::Team, int_text(team as int)),
            keys_unique(pairs(r@)),
    {
        Self { query: self.query.with(QueryKey::Team, format_int(team)) }
    }

    /// Sets the `team[]` parameter to the given values, separated by commas.
    pub fn teams(self, teams: &[i32]) -> (r: Self)
        ensures
            r@ == with_entry(self@, QueryKey::Team, joined(item_texts(teams@), ","@)),
            keys_unique(pairs(r@)),
    {
        Self { query: self.query.with(QueryKey::Team, list_text(teams)) }
    }

    /// Sets the `start` parameter to the given value.
    pub fn start(self, start: String) -> (r: Self)
        ensures
            r@ == with_entry(self@, QueryKey::Start, start@),
            keys_unique(pairs(r@)),
    {
        Self { query: self.query.with(QueryKey::Start, start) }
    }

    /// Sets the `start` parameter to the given value.
    pub fn end(self, end: String) -> (r: Self)
        ensures
            r@ == with_entry(self@, QueryKey::Start, end@),
            keys_unique(pairs(r@)),
    {
        Self { query: self.query.with(QueryKey::Start, end) }
    }

    /// Sets the `active` parameter to the given value.
    pub fn active(self, active: bool) -> (r: Self)
        ensures
            r@ == with_entry(self@, QueryKey::Active, bool_text(active)),
            keys_unique(pairs(r@)),
    {
        Self { query: self.query.with(QueryKey::Active, format_bool(active)) }
    }

    /// The query string: `?key=value&...` in the order the keys were first
    /// set, or empty when nothing is set.
    pub fn to_string(&self) -> (r: String)
        ensures
            r@ == render(self@),
    {
        self.query.render()
    }
}

impl PaginatedQuery for SeasonsQuery {
    fn page(self, page: i32) -> (r: Self) {
        Self { query: self.query.with(QueryKey::Page, format_int(page)) }
    }

    fn per_page(self, per_page: i32) -> (r: Self) {
        Self { query: self.query.with(QueryKey::PerPage, format_int(per_page)) }
    }
}

/// Query parameters for the `/seasons/:id/events` listing.
#[derive(Clone, Debug, PartialEq)]
pub struct SeasonEventsQuery {
    query: QueryParams,
}

impl View for SeasonEventsQuery {
    type V = ParamsView;

    closed spec fn view(&self) -> ParamsView {
        self.query@
    }
}

impl Default for SeasonEventsQuery {
    fn default() -> (r: Self)
        ensures
            r@ == no_params(),
            keys_unique(pairs(r@)),
    {
        Self::new()
    }
}

impl SeasonEventsQuery {
    /// No parameters.
    pub fn new() -> (r: Self)
        ensures
            r@ == no_params(),
            keys_unique(pairs(r@)),
    {
        Self { query: QueryParams::new() }
    }

    /// Sets the `sku[]` parameter to the given value.
    pub fn sku(self, sku: i32) -> (r: Self)
        ensures
            r@ == with_entry(self@, QueryKey::Sku, int_text(sku as int)),
            keys_unique(pairs(r@)),
    {
        Self { query: self.query.with(QueryKey::Sku, format_int(sku)) }
    }

    /// Sets the `sku[]` parameter to the given values, separated by commas.
    pub fn skus(self, skus: &[i32]) -> (r: Self)
        ensures
            r@ == with_entry(self@, QueryKey::Sku, joined(item_texts(skus@), ","@)),
            keys_unique(pairs(r@)),
    {
        Self { query: self.query.with(QueryKey::Sku, list_text(skus)) }
    }

    /// Sets the `team[]` parameter to the given value.
    pub fn team(self, team: i32) -> (r: Self)
        ensures
            r@ == with_entry(self@, QueryKey::Team, int_text(team as int)),
            keys_unique(pairs(r@)),
    {
        Self { query: self.query.with(QueryKey::Team, format_int(team)) }
    }

    /// Sets the `team[]` parameter to the given values, separated by commas.
    pub fn teams(self, teams: &[i32]) -> (r: Self)
        ensures
            r@ == with_entry(self@, QueryKey::Team, joined(item_texts(teams@), ","@)),
            keys_unique(pairs(r@)),
    {
        Self { query: self.query.with(QueryKey::Team, list_text(teams)) }
    }

    /// Sets the `start` parameter to the given value.
    pub fn start(self, start: String) -> (r: Self)
        ensures
            r@ == with_entry(self@, QueryKey::Start, start@),
            keys_unique(pairs(r@)),
    {
        Self { query: self.query.with(QueryKey::Start, start) }
    }

    /// Sets the `end` parameter to the given value.
    pub fn end(self, end: String) -> (r: Self)
        ensures
            r@ == with_entry(self@, QueryKey::End, end@),
            keys_unique(pairs(r@)),
    {
        Self { query: self.query.with(QueryKey::End, end) }
    }

    /// Sets the `level[]` parameter to the given value.
    pub fn level(self, level: EventLevel) -> (r: Self)
        ensures
            r@ == with_entry(self@, QueryKey::Level, event_level_text(level)),
            keys_unique(pairs(r@)),
    {
        Self { query: self.query.with(QueryKey::Level, level.to_string()) }
    }

    /// Sets the `season[]` parameter to the given values, separated by commas.
    pub fn levels(self, levels: &[EventLevel]) -> (r: Self)
        ensures
            r@ == with_entry(self@, QueryKey::Season, joined(item_texts(levels@), ","@)),
            keys_unique(pairs(r@)),
    {
        Self { query: self.query.with(QueryKey::Season, list_text(levels)) }
    }

    /// The query string: `?key=value&...` in the order the keys were first
    /// set, or empty when nothing is set.
    pub fn to_string(&self) -> (r: String)
        ensures
            r@ == render(self@),
    {
        self.query.render()
    }
}

impl PaginatedQuery for SeasonEventsQuery {
    fn page(self, page: i32) -> (r: Self) {
        Self { query: self.query.with(QueryKey::Page, format_int(page)) }
    }

    fn per_page(self, per_page: i32) -> (r: Self) {
        Self { query: self.query.with(QueryKey::PerPage, format_int(per_page)) }
    }
}

} // verus!
