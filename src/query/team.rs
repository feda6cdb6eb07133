//! Queries of the team listings.

use vstd::prelude::*;
use crate::schema::event::{EventLevel, event_level_text};
use crate::schema::team::{Grade, grade_text};
use crate::schema::matches::{MatchRound, round_number};
use crate::schema::skill::{SkillType, skill_type_text};
use crate::params::{keys_unique, lemma_keys_unique, lemma_params_len, lemma_with_entry_twice, no_params, pairs, render, with_entry, ParamsView, QueryKey, QueryParams, KEY_COUNT};
use crate::text::{bool_text, format_bool, format_int, int_text, item_texts, joined, list_text};
use super::PaginatedQuery;

verus! {

/// Query parameters for the `/teams` listing.
#[derive(Clone, Debug, PartialEq)]
pub struct TeamsQuery {
    query: QueryParams,
}

impl View for TeamsQuery {
    type V = ParamsView;

    closed spec fn view(&self) -> ParamsView {
        self.query@
    }
}

impl Default for TeamsQuery {
    fn default() -> (r: Self)
        ensures
            r@ == no_params(),
            keys_unique(pairs(r@)),
    {
        Self::new()
    }
}

impl TeamsQuery {
    /// No parameters.
    pub fn new() -> (r: Self)
        ensures
            r@ == no_params(),
            keys_unique(pairs(r@)),
    {
        Self { query: QueryParams::new() }
    }

    /// Sets the `id[]` parameter to the given value.
    pub fn id(self, id: i32) -> (r: Self)
        ensures
            r@ == with_entry(self@, QueryKey::Id, int_text(id as int)),
            keys_unique(pairs(r@)),
    {
        Self { query: self.query.with(QueryKey::Id, format_int(id)) }
    }

    /// Sets the `id[]` parameter to the given values, separated by commas.
    pub fn ids(self, ids: &[i32]) -> (r: Self)
        ensures
            r@ == with_entry(self@, QueryKey::Id, joined(item_texts(ids@), ","@)),
            keys_unique(pairs(r@)),
    {
        Self { query: self.query.with(QueryKey::Id, list_text(ids)) }
    }

    /// Sets the `number[]` parameter to the given value.
    pub fn number(self, number: String) -> (r: Self)
        ensures
            r@ == with_entry(self@, QueryKey::Number, number@),
            keys_unique(pairs(r@)),
    {
        Self { query: self.query.with(QueryKey::Number, number) }
    }

    /// Sets the `number[]` parameter to the given values, separated by commas.
    pub fn numbers(self, numbers: Vec<String>) -> (r: Self)
        ensures
            r@ == with_entry(self@, QueryKey::Number, joined(item_texts(numbers@), ","@)),
            keys_unique(pairs(r@)),
    {
        Self { query: self.query.with(QueryKey::Number, list_text(numbers.as_slice())) }
    }

    /// Sets the `event[]` parameter to the given value.
    pub fn event(self, event: i32) -> (r: Self)
        ensures
            r@ == with_entry(self@, QueryKey::Event, int_text(event as int)),
            keys_unique(pairs(r@)),
    {
        Self { query: self.query.with(QueryKey::Event, format_int(event)) }
    }

    /// Sets the `event[]` parameter to the given values, separated by commas.
    pub fn events(self, events: &[i32]) -> (r: Self)
        ensures
            r@ == with_entry(self@, QueryKey::Event, joined(item_texts(events@), ","@)),
            keys_unique(pairs(r@)),
    {
        Self { query: self.query.with(QueryKey::Event, list_text(events)) }
    }

    /// Sets the `registered` parameter to the given value.
    pub fn registered(self, registered: bool) -> (r: Self)
        ensures
            r@ == with_entry(self@, QueryKey::Registered, bool_text(registered)),
            keys_unique(pairs(r@)),
    {
        Self { query: self.query.with(QueryKey::Registered, format_bool(registered)) }
    }

    /// Sets the `program[]` parameter to the given value.
    pub fn program(self, program: i32) -> (r: Self)
        ensures
            r@ == with_entry(self@, QueryKey::Program, int_text(program as int)),
            keys_unique(pairs(r@)),
    {
        Self { query: self.query.with(QueryKey::Program, format_int(program)) }
    }

    /// Sets the `program[]` parameter to the given values, separated by commas.
    pub fn programs(self, programs: &[i32]) -> (r: Self)
        ensures
            r@ == with_entry(self@, QueryKey::Program, joined(item_texts(programs@), ","@)),
            keys_unique(pairs(r@)),
    {
        Self { query: self.query.with(QueryKey::Program, list_text(programs)) }
    }

    /// Sets the `grade[]` parameter to the given value.
    pub fn grade(self, grade: Grade) -> (r: Self)
        ensures
            r@ == with_entry(self@, QueryKey::Grade, grade_text(grade)),
            keys_unique(pairs(r@)),
    {
        Self { query: self.query.with(QueryKey::Grade, grade.to_string()) }
    }

    /// Sets the `grade[]` parameter to the given values, separated by commas.
    pub fn grades(self, grades: &[Grade]) -> (r: Self)
        ensures
            r@ == with_entry(self@, QueryKey::Grade, joined(item_texts(grades@), ","@)),
            keys_unique(pairs(r@)),
    {
        Self { query: self.query.with(QueryKey::Grade, list_text(grades)) }
    }

    /// Sets the `country[]` parameter to the given value.
    pub fn country(self, country: String) -> (r: Self)
        ensures
            r@ == with_entry(self@, QueryKey::Country, country@),
            keys_unique(pairs(r@)),
    {
        Self { query: self.query.with(QueryKey::Country, country) }
    }

    /// Sets the `country[]` parameter to each country in turn; the last one stays.
    pub fn countries(self, countrys: &[String]) -> (r: Self)
        ensures
            r@ == if countrys@.len() == 0 {
                self@
            } else {
                with_entry(self@, QueryKey::Country, countrys@.last()@)
            },
            keys_unique(pairs(r@)),
    {
        let ghost start = self@;
        proof {
            lemma_params_len(self.query);
        }
        let mut query = self.query;
        let mut i: usize = 0;
        while i < countrys.len()
            invariant
                i <= countrys@.len(),
                start.len() == KEY_COUNT,
                query@ == if i == 0 {
                    start
                } else {
                    with_entry(start, QueryKey::Country, countrys@[i - 1]@)
                },
            decreases countrys@.len() - i,
        {
            proof {
                if i > 0 {
                    lemma_with_entry_twice(start, QueryKey::Country, countrys@[i - 1]@, countrys@[i as int]@);
                }
            }
            query = query.with(QueryKey::Country, countrys[i].clone());
            i = i + 1;
        }
        proof {
            lemma_params_len(query);
            lemma_keys_unique(query@);
        }
        Self { query }
    }

    /// Sets the `myTeams` parameter to the given value.
    pub fn my_teams(self, my_teams: bool) -> (r: Self)
        ensures
            r@ == with_entry(self@, QueryKey::MyTeams, bool_text(my_teams)),
            keys_unique(pairs(r@)),
    {
        Self { query: self.query.with(QueryKey::MyTeams, format_bool(my_teams)) }
    }

    /// The query string: `?key=value&...` in the order the keys were first
    /// set, or empty when nothing is set.
    pub fn to_string(&self) -> (r: String)
        ensures
            r@ == render(self@),
    {
        self.query.render()
    }
}

impl PaginatedQuery for TeamsQuery {
    fn page(self, page: i32) -> (r: Self) {
        Self { query: self.query.with(QueryKey::Page, format_int(page)) }
    }

    fn per_page(self, per_page: i32) -> (r: Self) {
        Self { query: self.query.with(QueryKey::PerPage, format_int(per_page)) }
    }
}

/// Query parameters for the `/teams/:id/events` listing.
#[derive(Clone, Debug, PartialEq)]
pub struct TeamEventsQuery {
    query: QueryParams,
}

impl View for TeamEventsQuery {
    type V = ParamsView;

    closed spec fn view(&self) -> ParamsView {
        self.query@
    }
}

impl Default for TeamEventsQuery {
    fn default() -> (r: Self)
        ensures
            r@ == no_params(),
            keys_unique(pairs(r@)),
    {
        Self::new()
    }
}

impl TeamEventsQuery {
    /// No parameters.
    pub fn new() -> (r: Self)
        ensures
            r@ == no_params(),
            keys_unique(pairs(r@)),
    {
        Self { query: QueryParams::new() }
    }

    /// Sets the `sku[]` parameter to the given value.
    pub fn sku(self, sku: i32) -> (r: Self)
        ensures
            r@ == with_entry(self@, QueryKey::Sku, int_text(sku as int)),
            keys_unique(pairs(r@)),
    {
        Self { query: self.query.with(QueryKey::Sku, format_int(sku)) }
    }

    /// Sets the `sku[]` parameter to the given values, separated by commas.
    pub fn skus(self, skus: &[i32]) -> (r: Self)
        ensures
            r@ == with_entry(self@, QueryKey::Sku, joined(item_texts(skus@), ","@)),
            keys_unique(pairs(r@)),
    {
        Self { query: self.query.with(QueryKey::Sku, list_text(skus)) }
    }

    /// Sets the `season[]` parameter to the given value.
    pub fn season(self, season: i32) -> (r: Self)
        ensures
            r@ == with_entry(self@, QueryKey::Season, int_text(season as int)),
            keys_unique(pairs(r@)),
    {
        Self { query: self.query.with(QueryKey::Season, format_int(season)) }
    }

    /// Sets the `season[]` parameter to the given values, separated by commas.
    pub fn seasons(self, seasons: &[i32]) -> (r: Self)
        ensures
            r@ == with_entry(self@, QueryKey::Season, joined(item_texts(seasons@), ","@)),
            keys_unique(pairs(r@)),
    {
        Self { query: self.query.with(QueryKey::Season, list_text(seasons)) }
    }

    /// Sets the `start` parameter to the given value.
    pub fn start(self, start: String) -> (r: Self)
        ensures
            r@ == with_entry(self@, QueryKey::Start, start@),
            keys_unique(pairs(r@)),
    {
        Self { query: self.query.with(QueryKey::Start, start) }
    }

    /// Sets the `end` parameter to the given value.
    pub fn end(self, end: String) -> (r: Self)
        ensures
            r@ == with_entry(self@, QueryKey::End, end@),
            keys_unique(pairs(r@)),
    {
        Self { query: self.query.with(QueryKey::End, end) }
    }

    /// Sets the `level[]` parameter to the given value.
    pub fn level(self, level: EventLevel) -> (r: Self)
        ensures
            r@ == with_entry(self@, QueryKey::Level, event_level_text(level)),
            keys_unique(pairs(r@)),
    {
        Self { query: self.query.with(QueryKey::Level, level.to_string()) }
    }

    /// Sets the `level[]` parameter to the given values, separated by commas.
    pub fn levels(self, levels: &[EventLevel]) -> (r: Self)
        ensures
            r@ == with_entry(self@, QueryKey::Level, joined(item_texts(levels@), ","@)),
            keys_unique(pairs(r@)),
    {
        Self { query: self.query.with(QueryKey::Level, list_text(levels)) }
    }

    /// The query string: `?key=value&...` in the order the keys were first
    /// set, or empty when nothing is set.
    pub fn to_string(&self) -> (r: String)
        ensures
            r@ == render(self@),
    {
        self.query.render()
    }
}

impl PaginatedQuery for TeamEventsQuery {
    fn page(self, page: i32) -> (r: Self) {
        Self { query: self.query.with(QueryKey::Page, format_int(page)) }
    }

    fn per_page(self, per_page: i32) -> (r: Self) {
        Self { query: self.query.with(QueryKey::PerPage, format_int(per_page)) }
    }
}

/// Query parameters for the `/teams/:id/matches` listing.
#[derive(Clone, Debug, PartialEq)]
pub struct TeamMatchesQuery {
    query: QueryParams,
}

impl View for TeamMatchesQuery {
    type V = ParamsView;

    closed spec fn view(&self) -> ParamsView {
        self.query@
    }
}

impl Default for TeamMatchesQuery {
    fn default() -> (r: Self)
        ensures
            r@ == no_params(),
            keys_unique(pairs(r@)),
    {
        Self::new()
    }
}

impl TeamMatchesQuery {
    /// No parameters.
    pub fn new() -> (r: Self)
        ensures
            r@ == no_params(),
            keys_unique(pairs(r@)),
    {
        Self { query: QueryParams::new() }
    }

    /// Sets the `event[]` parameter to the given value.
    pub fn event(self, event: i32) -> (r: Self)
        ensures
            r@ == with_entry(self@, QueryKey::Event, int_text(event as int)),
            keys_unique(pairs(r@)),
    {
        Self { query: self.query.with(QueryKey::Event, format_int(event)) }
    }

    /// Sets the `event[]` parameter to the given values, separated by commas.
    pub fn events(self, events: &[i32]) -> (r: Self)
        ensures
            r@ == with_entry(self@, QueryKey::Event, joined(item_texts(events@), ","@)),
            keys_unique(pairs(r@)),
    {
        Self { query: self.query.with(QueryKey::Event, list_text(events)) }
    }

    /// Sets the `season[]` parameter to the given value.
    pub fn season(self, season: i32) -> (r: Self)
        ensures
            r@ == with_entry(self@, QueryKey::Season, int_text(season as int)),
            keys_unique(pairs(r@)),
    {
        Self { query: self.query.with(QueryKey::Season, format_int(season)) }
    }

    /// Sets the `season[]` parameter to the given values, separated by commas.
    pub fn seasons(self, seasons: &[i32]) -> (r: Self)
        ensures
            r@ == with_entry(self@, QueryKey::Season, joined(item_texts(seasons@), ","@)),
            keys_unique(pairs(r@)),
    {
        Self { query: self.query.with(QueryKey::Season, list_text(seasons)) }
    }

    /// Sets the `round[]` parameter to the given value.
    pub fn round(self, round: MatchRound) -> (r: Self)
        ensures
            r@ == with_entry(self@, QueryKey::Round, int_text(round_number(round))),
            keys_unique(pairs(r@)),
    {
        Self { query: self.query.with(QueryKey::Round, format_int(round.number())) }
    }

    /// Sets the `round[]` parameter to the given values, separated by commas.
    pub fn rounds(self, rounds: &[MatchRound]) -> (r: Self)
        ensures
            r@ == with_entry(self@, QueryKey::Round, joined(item_texts(rounds@), ","@)),
            keys_unique(pairs(r@)),
    {
        Self { query: self.query.with(QueryKey::Round, list_text(rounds)) }
    }

    /// Sets the `instance[]` parameter to the given value.
    pub fn instance(self, instance: i32) -> (r: Self)
        ensures
            r@ == with_entry(self@, QueryKey::Instance, int_text(instance as int)),
            keys_unique(pairs(r@)),
    {
        Self { query: self.query.with(QueryKey::Instance, format_int(instance)) }
    }

    /// Sets the `instance[]` parameter to the given values, separated by commas.
    pub fn instances(self, instances: &[i32]) -> (r: Self)
        ensures
            r@ == with_entry(self@, QueryKey::Instance, joined(item_texts(instances@), ","@)),
            keys_unique(pairs(r@)),
    {
        Self { query: self.query.with(QueryKey::Instance, list_text(instances)) }
    }

    /// Sets the `matchnum[]` parameter to the given value.
    pub fn matchnum(self, matchnum: i32) -> (r: Self)
        ensures
            r@ == with_entry(self@, QueryKey::Matchnum, int_text(matchnum as int)),
            keys_unique(pairs(r@)),
    {
        Self { query: self.query.with(QueryKey::Matchnum, format_int(matchnum)) }
    }

    /// Sets the `matchnum[]` parameter to the given values, separated by commas.
    pub fn matchnums(self, matchnums: &[i32]) -> (r: Self)
        ensures
            r@ == with_entry(self@, QueryKey::Matchnum, joined(item_texts(matchnums@), ","@)),
            keys_unique(pairs(r@)),
    {
        Self { query: self.query.with(QueryKey::Matchnum, list_text(matchnums)) }
    }

    /// The query string: `?key=value&...` in the order the keys were first
    /// set, or empty when nothing is set.
    pub fn to_string(&self) -> (r: String)
        ensures
            r@ == render(self@),
    {
        self.query.render()
    }
}

impl PaginatedQuery for TeamMatchesQuery {
    fn page(self, page: i32) -> (r: Self) {
        Self { query: self.query.with(QueryKey::Page, format_int(page)) }
    }

    fn per_page(self, per_page: i32) -> (r: Self) {
        Self { query: self.query.with(QueryKey::PerPage, format_int(per_page)) }
    }
}

/// Query parameters for the `/teams/:id/rankings` listing.
#[derive(Clone, Debug, PartialEq)]
pub struct TeamRankingsQuery {
    query: QueryParams,
}

impl View for TeamRankingsQuery {
    type V = ParamsView;

    closed spec fn view(&self) -> ParamsView {
        self.query@
    }
}

impl Default for TeamRankingsQuery {
    fn default() -> (r: Self)
        ensures
            r@ == no_params(),
            keys_unique(pairs(r@)),
    {
        Self::new()
    }
}

impl TeamRankingsQuery {
    /// No parameters.
    pub fn new() -> (r: Self)
        ensures
            r@ == no_params(),
            keys_unique(pairs(r@)),
    {
        Self { query: QueryParams::new() }
    }

    /// Sets the `event[]` parameter to the given value.
    pub fn event(self, event: i32) -> (r: Self)
        ensures
            r@ == with_entry(self@, QueryKey::Event, int_text(event as int)),
            keys_unique(pairs(r@)),
    {
        Self { query: self.query.with(QueryKey::Event, format_int(event)) }
    }

    /// Sets the `event[]` parameter to the given values, separated by commas.
    pub fn events(self, events: &[i32]) -> (r: Self)
        ensures
            r@ == with_entry(self@, QueryKey::Event, joined(item_texts(events@), ","@)),
            keys_unique(pairs(r@)),
    {
        Self { query: self.query.with(QueryKey::Event, list_text(events)) }
    }

    /// Sets the `rank[]` parameter to the given value.
    pub fn rank(self, rank: i32) -> (r: Self)
        ensures
            r@ == with_entry(self@, QueryKey::Rank, int_text(rank as int)),
            keys_unique(pairs(r@)),
    {
        Self { query: self.query.with(QueryKey::Rank, format_int(rank)) }
    }

    /// Sets the `rank[]` parameter to the given values, separated by commas.
    pub fn ranks(self, ranks: &[i32]) -> (r: Self)
        ensures
            r@ == with_entry(self@, QueryKey::Rank, joined(item_texts(ranks@), ","@)),
            keys_unique(pairs(r@)),
    {
        Self { query: self.query.with(QueryKey::Rank, list_text(ranks)) }
    }

    /// Sets the `season[]` parameter to the given value.
    pub fn season(self, season: i32) -> (r: Self)
        ensures
            r@ == with_entry(self@, QueryKey::Season, int_text(season as int)),
            keys_unique(pairs(r@)),
    {
        Self { query: self.query.with(QueryKey::Season, format_int(season)) }
    }

    /// Sets the `season[]` parameter to the given values, separated by commas.
    pub fn seasons(self, seasons: &[i32]) -> (r: Self)
        ensures
            r@ == with_entry(self@, QueryKey::Season, joined(item_texts(seasons@), ","@)),
            keys_unique(pairs(r@)),
    {
        Self { query: self.query.with(QueryKey::Season, list_text(seasons)) }
    }

    /// The query string: `?key=value&...` in the order the keys were first
    /// set, or empty when nothing is set.
    pub fn to_string(&self) -> (r: String)
        ensures
            r@ == render(self@),
    {
        self.query.render()
    }
}

impl PaginatedQuery for TeamRankingsQuery {
    fn page(self, page: i32) -> (r: Self) {
        Self { query: self.query.with(QueryKey::Page, format_int(page)) }
    }

    fn per_page(self, per_page: i32) -> (r: Self) {
        Self { query: self.query.with(QueryKey::PerPage, format_int(per_page)) }
    }
}

/// Query parameters for the `/teams/:id/skills` listing.
#[derive(Clone, Debug, PartialEq)]
pub struct TeamSkillsQuery {
    query: QueryParams,
}

impl View for TeamSkillsQuery {
    type V = ParamsView;

    closed spec fn view(&self) -> ParamsView {
        self.query@
    }
}

impl Default for TeamSkillsQuery {
    fn default() -> (r: Self)
        ensures
            r@ == no_params(),
            keys_unique(pairs(r@)),
    {
        Self::new()
    }
}

impl TeamSkillsQuery {
    /// No parameters.
    pub fn new() -> (r: Self)
        ensures
            r@ == no_params(),
            keys_unique(pairs(r@)),
    {
        Self { query: QueryParams::new() }
    }

    /// Sets the `event[]` parameter to the given value.
    pub fn event(self, event: i32) -> (r: Self)
        ensures
            r@ == with_entry(self@, QueryKey::Event, int_text(event as int)),
            keys_unique(pairs(r@)),
    {
        Self { query: self.query.with(QueryKey::Event, format_int(event)) }
    }

    /// Sets the `event[]` parameter to the given values, separated by commas.
    pub fn events(self, events: &[i32]) -> (r: Self)
        ensures
            r@ == with_entry(self@, QueryKey::Event, joined(item_texts(events@), ","@)),
            keys_unique(pairs(r@)),
    {
        Self { query: self.query.with(QueryKey::Event, list_text(events)) }
    }

    /// Sets the `type[]` parameter to the given value.
    pub fn skill_type(self, skill_type: SkillType) -> (r: Self)
        ensures
            r@ == with_entry(self@, QueryKey::SkillType, skill_type_text(skill_type)),
            keys_unique(pairs(r@)),
    {
        Self { query: self.query.with(QueryKey::SkillType, skill_type.to_string()) }
    }

    /// Sets the `type[]` parameter to the given values, separated by commas.
    pub fn skill_types(self, skill_types: &[SkillType]) -> (r: Self)
        ensures
            r@ == with_entry(self@, QueryKey::SkillType, joined(item_texts(skill_types@), ","@)),
            keys_unique(pairs(r@)),
    {
        Self { query: self.query.with(QueryKey::SkillType, list_text(skill_types)) }
    }

    /// Sets the `season[]` parameter to the given value.
    pub fn season(self, season: i32) -> (r: Self)
        ensures
            r@ == with_entry(self@, QueryKey::Season, int_text(season as int)),
            keys_unique(pairs(r@)),
    {
        Self { query: self.query.with(QueryKey::Season, format_int(season)) }
    }

    /// Sets the `season[]` parameter to the given values, separated by commas.
    pub fn seasons(self, seasons: &[i32]) -> (r: Self)
        ensures
            r@ == with_entry(self@, QueryKey::Season, joined(item_texts(seasons@), ","@)),
            keys_unique(pairs(r@)),
    {
        Self { query: self.query.with(QueryKey::Season, list_text(seasons)) }
    }

    /// The query string: `?key=value&...` in the order the keys were first
    /// set, or empty when nothing is set.
    pub fn to_string(&self) -> (r: String)
        ensures
            r@ == render(self@),
    {
        self.query.render()
    }
}

impl PaginatedQuery for TeamSkillsQuery {
    fn page(self, page: i32) -> (r: Self) {
        Self { query: self.query.with(QueryKey::Page, format_int(page)) }
    }

    fn per_page(self, per_page: i32) -> (r: Self) {
        Self { query: self.query.with(QueryKey::PerPage, format_int(per_page)) }
    }
}

/// Query parameters for the `/teams/:id/awards` listing.
#[derive(Clone, Debug, PartialEq)]
pub struct TeamAwardsQuery {
    query: QueryParams,
}

impl View for TeamAwardsQuery {
    type V = ParamsView;

    closed spec fn view(&self) -> ParamsView {
        self.query@
    }
}

impl Default for TeamAwardsQuery {
    fn default() -> (r: Self)
        ensures
            r@ == no_params(),
            keys_unique(pairs(r@)),
    {
        Self::new()
    }
}

impl TeamAwardsQuery {
    /// No parameters.
    pub fn new() -> (r: Self)
        ensures
            r@ == no_params(),
            keys_unique(pairs(r@)),
    {
        Self { query: QueryParams::new() }
    }

    /// Sets the `event[]` parameter to the given value.
    pub fn event(self, event: i32) -> (r: Self)
        ensures
            r@ == with_entry(self@, QueryKey::Event, int_text(event as int)),
            keys_unique(pairs(r@)),
    {
        Self { query: self.query.with(QueryKey::Event, format_int(event)) }
    }

    /// Sets the `event[]` parameter to the given values, separated by commas.
    pub fn events(self, events: &[i32]) -> (r: Self)
        ensures
            r@ == with_entry(self@, QueryKey::Event, joined(item_texts(events@), ","@)),
            keys_unique(pairs(r@)),
    {
        Self { query: self.query.with(QueryKey::Event, list_text(events)) }
    }

    /// Sets the `season[]` parameter to the given value.
    pub fn season(self, season: i32) -> (r: Self)
        ensures
            r@ == with_entry(self@, QueryKey::Season, int_text(season as int)),
            keys_unique(pairs(r@)),
    {
        Self { query: self.query.with(QueryKey::Season, format_int(season)) }
    }

    /// Sets the `season[]` parameter to the given values, separated by commas.
    pub fn seasons(self, seasons: &[i32]) -> (r: Self)
        ensures
            r@ == with_entry(self@, QueryKey::Season, joined(item_texts(seasons@), ","@)),
            keys_unique(pairs(r@)),
    {
        Self { query: self.query.with(QueryKey::Season, list_text(seasons)) }
    }

    /// The query string: `?key=value&...` in the order the keys were first
    /// set, or empty when nothing is set.
    pub fn to_string(&self) -> (r: String)
        ensures
            r@ == render(self@),
    {
        self.query.render()
    }
}

impl PaginatedQuery for TeamAwardsQuery {
    fn page(self, page: i32) -> (r: Self) {
        Self { query: self.query.with(QueryKey::Page, format_int(page)) }
    }

    fn per_page(self, per_page: i32) -> (r: Self) {
        Self { query: self.query.with(QueryKey::PerPage, format_int(per_page)) }
    }
}

} // verus!
