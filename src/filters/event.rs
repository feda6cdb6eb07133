//! Filters of the event listings.

use vstd::prelude::*;
use crate::schema::event::{event_level_text, event_type_text, EventLevel, EventType};
use crate::schema::team::{Grade, grade_text};
use crate::schema::matches::{MatchRound, round_number};
use crate::schema::skill::{SkillType, skill_type_text};
use crate::params::{keys_unique, no_params, pairs, render, with_entry, ParamsView, QueryKey, QueryParams};
use crate::text::{bool_text, format_bool, format_int, int_text, item_texts, joined, list_text};

verus! {

/// Filter parameters for the `/events` listing.
#[derive(Clone, Debug, PartialEq)]
pub struct EventsFilter {
    query: QueryParams,
}

impl View for EventsFilter {
    type V = ParamsView;

    closed spec fn view(&self) -> ParamsView {
        self.query@
    }
}

impl Default for EventsFilter {
    fn default() -> (r: Self)
        ensures
            r@ == no_params(),
            keys_unique(pairs(r@)),
    {
        Self::new()
    }
}

impl EventsFilter {
    /// No parameters.
    pub fn new() -> (r: Self)
        ensures
            r@ == no_params(),
            keys_unique(pairs(r@)),
    {
        Self { query: QueryParams::new() }
    }

    /// Sets the `id[]` parameter to the given value.
    pub fn id(self, id: i32) -> (r: Self)
        ensures
            r@ == with_entry(self@, QueryKey::Id, int_text(id as int)),
            keys_unique(pairs(r@)),
    {
        Self { query: self.query.with(QueryKey::Id, format_int(id)) }
    }

    /// Sets the `id[]` parameter to the given values, separated by commas.
    pub fn ids(self, ids: &[i32]) -> (r: Self)
        ensures
            r@ == with_entry(self@, QueryKey::Id, joined(item_texts(ids@), ","@)),
            keys_unique(pairs(r@)),
    {
        Self { query: self.query.with(QueryKey::Id, list_text(ids)) }
    }

    /// Sets the `sku[]` parameter to the given value.
    pub fn sku(self, sku: i32) -> (r: Self)
        ensures
            r@ == with_entry(self@, QueryKey::Sku, int_text(sku as int)),
            keys_unique(pairs(r@)),
    {
        Self { query: self.query.with(QueryKey::Sku, format_int(sku)) }
    }

    /// Sets the `sku[]` parameter to the given values, separated by commas.
    pub fn skus(self, skus: &[i32]) -> (r: Self)
        ensures
            r@ == with_entry(self@, QueryKey::Sku, joined(item_texts(skus@), ","@)),
            keys_unique(pairs(r@)),
    {
        Self { query: self.query.with(QueryKey::Sku, list_text(skus)) }
    }

    /// Sets the `team[]` parameter to the given value.
    pub fn team(self, team: i32) -> (r: Self)
        ensures
            r@ == with_entry(self@, QueryKey::Team, int_text(team as int)),
            keys_unique(pairs(r@)),
    {
        Self { query: self.query.with(QueryKey::Team, format_int(team)) }
    }

    /// Sets the `team[]` parameter to the given values, separated by commas.
    pub fn teams(self, teams: &[i32]) -> (r: Self)
        ensures
            r@ == with_entry(self@, QueryKey::Team, joined(item_texts(teams@), ","@)),
            keys_unique(pairs(r@)),
    {
        Self { query: self.query.with(QueryKey::Team, list_text(teams)) }
    }

    /// Sets the `season[]` parameter to the given value.
    pub fn season(self, season: i32) -> (r: Self)
        ensures
            r@ == with_entry(self@, QueryKey::Season, int_text(season as int)),
            keys_unique(pairs(r@)),
    {
        Self { query: self.query.with(QueryKey::Season, format_int(season)) }
    }

    /// Sets the `season[]` parameter to the given values, separated by commas.
    pub fn seasons(self, seasons: &[i32]) -> (r: Self)
        ensures
            r@ == with_entry(self@, QueryKey::Season, joined(item_texts(seasons@), ","@)),
            keys_unique(pairs(r@)),
    {
        Self { query: self.query.with(QueryKey::Season, list_text(seasons)) }
    }

    /// Sets the `start` parameter to the given value.
    pub fn start(self, start: String) -> (r: Self)
        ensures
            r@ == with_entry(self@, QueryKey::Start, start@),
            keys_unique(pairs(r@)),
    {
        Self { query: self.query.with(QueryKey::Start, start) }
    }

    /// Sets the `end` parameter to the given value.
    pub fn end(self, end: String) -> (r: Self)
        ensures
            r@ == with_entry(self@, QueryKey::End, end@),
            keys_unique(pairs(r@)),
    {
        Self { query: self.query.with(QueryKey::End, end) }
    }

    /// Sets the `start` parameter to the given value.
    pub fn region(self, region: String) -> (r: Self)
        ensures
            r@ == with_entry(self@, QueryKey::Start, region@),
            keys_unique(pairs(r@)),
    {
        Self { query: self.query.with(QueryKey::Start, region) }
    }

    /// Sets the `level[]` parameter to the given value.
    pub fn level(self, level: EventLevel) -> (r: Self)
        ensures
            r@ == with_entry(self@, QueryKey::Level, event_level_text(level)),
            keys_unique(pairs(r@)),
    {
        Self { query: self.query.with(QueryKey::Level, level.to_string()) }
    }

    /// Sets the `season[]` parameter to the given values, separated by commas.
    pub fn levels(self, levels: &[EventLevel]) -> (r: Self)
        ensures
            r@ == with_entry(self@, QueryKey::Season, joined(item_texts(levels@), ","@)),
            keys_unique(pairs(r@)),
    {
        Self { query: self.query.with(QueryKey::Season, list_text(levels)) }
    }

    /// Sets the `my_events` parameter to the given value.
    pub fn my_events(self, my_events: bool) -> (r: Self)
        ensures
            r@ == with_entry(self@, QueryKey::MyEvents, bool_text(my_events)),
            keys_unique(pairs(r@)),
    {
        Self { query: self.query.with(QueryKey::MyEvents, format_bool(my_events)) }
    }

    /// Sets the `event_type[]` parameter to the given value.
    pub fn event_type(self, event_type: EventType) -> (r: Self)
        ensures
            r@ == with_entry(self@, QueryKey::EventType, event_type_text(event_type)),
            keys_unique(pairs(r@)),
    {
        Self { query: self.query.with(QueryKey::EventType, event_type.to_string()) }
    }

    /// Sets the `season[]` parameter to the given values, separated by commas.
    pub fn event_types(self, event_types: &[EventType]) -> (r: Self)
        ensures
            r@ == with_entry(self@, QueryKey::Season, joined(item_texts(event_types@), ","@)),
            keys_unique(pairs(r@)),
    {
        Self { query: self.query.with(QueryKey::Season, list_text(event_types)) }
    }

    /// The query string: `?key=value&...` in the order the keys were first
    /// set, or empty when nothing is set.
    pub fn to_string(&self) -> (r: String)
        ensures
            r@ == render(self@),
    {
        self.query.render()
    }
}

/// Filter parameters for the `/events/:id/teams` listing.
#[derive(Clone, Debug, PartialEq)]
pub struct EventTeamsFilter {
    query: QueryParams,
}

impl View for EventTeamsFilter {
    type V = ParamsView;

    closed spec fn view(&self) -> ParamsView {
        self.query@
    }
}

impl Default for EventTeamsFilter {
    fn default() -> (r: Self)
        ensures
            r@ == no_params(),
            keys_unique(pairs(r@)),
    {
        Self::new()
    }
}

impl EventTeamsFilter {
    /// No parameters.
    pub fn new() -> (r: Self)
        ensures
            r@ == no_params(),
            keys_unique(pairs(r@)),
    {
        Self { query: QueryParams::new() }
    }

    /// Sets the `number[]` parameter to the given value.
    pub fn number(self, number: String) -> (r: Self)
        ensures
            r@ == with_entry(self@, QueryKey::Number, number@),
            keys_unique(pairs(r@)),
    {
        Self { query: self.query.with(QueryKey::Number, number) }
    }

    /// Sets the `number[]` parameter to the given values, separated by commas.
    pub fn numbers(self, numbers: Vec<String>) -> (r: Self)
        ensures
            r@ == with_entry(self@, QueryKey::Number, joined(item_texts(numbers@), ","@)),
            keys_unique(pairs(r@)),
    {
        Self { query: self.query.with(QueryKey::Number, list_text(numbers.as_slice())) }
    }

    /// Sets the `registered` parameter to the given value.
    pub fn registered(self, number: String) -> (r: Self)
        ensures
            r@ == with_entry(self@, QueryKey::Registered, number@),
            keys_unique(pairs(r@)),
    {
        Self { query: self.query.with(QueryKey::Registered, number) }
    }

    /// Sets the `grade[]` parameter to the given value.
    pub fn grade(self, grade: Grade) -> (r: Self)
        ensures
            r@ == with_entry(self@, QueryKey::Grade, grade_text(grade)),
            keys_unique(pairs(r@)),
    {
        Self { query: self.query.with(QueryKey::Grade, grade.to_string()) }
    }

    /// Sets the `grade[]` parameter to the given values, separated by commas.
    pub fn grades(self, grades: &[Grade]) -> (r: Self)
        ensures
            r@ == with_entry(self@, QueryKey::Grade, joined(item_texts(grades@), ","@)),
            keys_unique(pairs(r@)),
    {
        Self { query: self.query.with(QueryKey::Grade, list_text(grades)) }
    }

    /// Sets the `country[]` parameter to the given value.
    pub fn country(self, country: i32) -> (r: Self)
        ensures
            r@ == with_entry(self@, QueryKey::Country, int_text(country as int)),
            keys_unique(pairs(r@)),
    {
        Self { query: self.query.with(QueryKey::Country, format_int(country)) }
    }

    /// Sets the `country[]` parameter to the given values, separated by commas.
    pub fn countries(self, countrys: &[i32]) -> (r: Self)
        ensures
            r@ == with_entry(self@, QueryKey::Country, joined(item_texts(countrys@), ","@)),
            keys_unique(pairs(r@)),
    {
        Self { query: self.query.with(QueryKey::Country, list_text(countrys)) }
    }

    /// Sets the `myTeams` parameter to the given value.
    pub fn my_teams(self, my_teams: bool) -> (r: Self)
        ensures
            r@ == with_entry(self@, QueryKey::MyTeams, bool_text(my_teams)),
            keys_unique(pairs(r@)),
    {
        Self { query: self.query.with(QueryKey::MyTeams, format_bool(my_teams)) }
    }

    /// The query string: `?key=value&...` in the order the keys were first
    /// set, or empty when nothing is set.
    pub fn to_string(&self) -> (r: String)
        ensures
            r@ == render(self@),
    {
        self.query.render()
    }
}

/// Filter parameters for the `/events/:id/skills` listing.
#[derive(Clone, Debug, PartialEq)]
pub struct EventSkillsFilter {
    query: QueryParams,
}

impl View for EventSkillsFilter {
    type V = ParamsView;

    closed spec fn view(&self) -> ParamsView {
        self.query@
    }
}

impl Default for EventSkillsFilter {
    fn default() -> (r: Self)
        ensures
            r@ == no_params(),
            keys_unique(pairs(r@)),
    {
        Self::new()
    }
}

impl EventSkillsFilter {
    /// No parameters.
    pub fn new() -> (r: Self)
        ensures
            r@ == no_params(),
            keys_unique(pairs(r@)),
    {
        Self { query: QueryParams::new() }
    }

    /// Sets the `team[]` parameter to the given value.
    pub fn team(self, team: i32) -> (r: Self)
        ensures
            r@ == with_entry(self@, QueryKey::Team, int_text(team as int)),
            keys_unique(pairs(r@)),
    {
        Self { query: self.query.with(QueryKey::Team, format_int(team)) }
    }

    /// Sets the `team[]` parameter to the given values, separated by commas.
    pub fn teams(self, teams: &[i32]) -> (r: Self)
        ensures
            r@ == with_entry(self@, QueryKey::Team, joined(item_texts(teams@), ","@)),
            keys_unique(pairs(r@)),
    {
        Self { query: self.query.with(QueryKey::Team, list_text(teams)) }
    }

    /// Sets the `type[]` parameter to the given value.
    pub fn skill_type(self, skill_type: SkillType) -> (r: Self)
        ensures
            r@ == with_entry(self@, QueryKey::SkillType, skill_type_text(skill_type)),
            keys_unique(pairs(r@)),
    {
        Self { query: self.query.with(QueryKey::SkillType, skill_type.to_string()) }
    }

    /// Sets the `type[]` parameter to the given values, separated by commas.
    pub fn skill_types(self, skill_types: &[SkillType]) -> (r: Self)
        ensures
            r@ == with_entry(self@, QueryKey::SkillType, joined(item_texts(skill_types@), ","@)),
            keys_unique(pairs(r@)),
    {
        Self { query: self.query.with(QueryKey::SkillType, list_text(skill_types)) }
    }

    /// The query string: `?key=value&...` in the order the keys were first
    /// set, or empty when nothing is set.
    pub fn to_string(&self) -> (r: String)
        ensures
            r@ == render(self@),
    {
        self.query.render()
    }
}

/// Filter parameters for the `/events/:id/awards` listing.
#[derive(Clone, Debug, PartialEq)]
pub struct EventAwardsFilter {
    query: QueryParams,
}

impl View for EventAwardsFilter {
    type V = ParamsView;

    closed spec fn view(&self) -> ParamsView {
        self.query@
    }
}

impl Default for EventAwardsFilter {
    fn default() -> (r: Self)
        ensures
            r@ == no_params(),
            keys_unique(pairs(r@)),
    {
        Self::new()
    }
}

impl EventAwardsFilter {
    /// No parameters.
    pub fn new() -> (r: Self)
        ensures
            r@ == no_params(),
            keys_unique(pairs(r@)),
    {
        Self { query: QueryParams::new() }
    }

    /// Sets the `team[]` parameter to the given value.
    pub fn team(self, team: i32) -> (r: Self)
        ensures
            r@ == with_entry(self@, QueryKey::Team, int_text(team as int)),
            keys_unique(pairs(r@)),
    {
        Self { query: self.query.with(QueryKey::Team, format_int(team)) }
    }

    /// Sets the `team[]` parameter to the given values, separated by commas.
    pub fn teams(self, teams: &[i32]) -> (r: Self)
        ensures
            r@ == with_entry(self@, QueryKey::Team, joined(item_texts(teams@), ","@)),
            keys_unique(pairs(r@)),
    {
        Self { query: self.query.with(QueryKey::Team, list_text(teams)) }
    }

    /// Sets the `winner[]` parameter to the given value.
    pub fn winner(self, winner: String) -> (r: Self)
        ensures
            r@ == with_entry(self@, QueryKey::Winner, winner@),
            keys_unique(pairs(r@)),
    {
        Self { query: self.query.with(QueryKey::Winner, winner) }
    }

    /// Sets the `winner[]` parameter to the given values, separated by commas.
    pub fn winners(self, winners: Vec<String>) -> (r: Self)
        ensures
            r@ == with_entry(self@, QueryKey::Winner, joined(item_texts(winners@), ","@)),
            keys_unique(pairs(r@)),
    {
        Self { query: self.query.with(QueryKey::Winner, list_text(winners.as_slice())) }
    }

    /// The query string: `?key=value&...` in the order the keys were first
    /// set, or empty when nothing is set.
    pub fn to_string(&self) -> (r: String)
        ensures
            r@ == render(self@),
    {
        self.query.render()
    }
}

/// Filter parameters for the `/events/:id/divisions/:div/matches` listing.
#[derive(Clone, Debug, PartialEq)]
pub struct DivisionMatchesFilter {
    query: QueryParams,
}

impl View for DivisionMatchesFilter {
    type V = ParamsView;

    closed spec fn view(&self) -> ParamsView {
        self.query@
    }
}

impl Default for DivisionMatchesFilter {
    fn default() -> (r: Self)
        ensures
            r@ == no_params(),
            keys_unique(pairs(r@)),
    {
        Self::new()
    }
}

impl DivisionMatchesFilter {
    /// No parameters.
    pub fn new() -> (r: Self)
        ensures
            r@ == no_params(),
            keys_unique(pairs(r@)),
    {
        Self { query: QueryParams::new() }
    }

    /// Sets the `team[]` parameter to the given value.
    pub fn team(self, team: i32) -> (r: Self)
        ensures
            r@ == with_entry(self@, QueryKey::Team, int_text(team as int)),
            keys_unique(pairs(r@)),
    {
        Self { query: self.query.with(QueryKey::Team, format_int(team)) }
    }

    /// Sets the `team[]` parameter to the given values, separated by commas.
    pub fn teams(self, teams: &[i32]) -> (r: Self)
        ensures
            r@ == with_entry(self@, QueryKey::Team, joined(item_texts(teams@), ","@)),
            keys_unique(pairs(r@)),
    {
        Self { query: self.query.with(QueryKey::Team, list_text(teams)) }
    }

    /// Sets the `round[]` parameter to the given value.
    pub fn round(self, round: MatchRound) -> (r: Self)
        ensures
            r@ == with_entry(self@, QueryKey::Round, int_text(round_number(round))),
            keys_unique(pairs(r@)),
    {
        Self { query: self.query.with(QueryKey::Round, format_int(round.number())) }
    }

    /// Sets the `round[]` parameter to the given values, separated by commas.
    pub fn rounds(self, rounds: &[MatchRound]) -> (r: Self)
        ensures
            r@ == with_entry(self@, QueryKey::Round, joined(item_texts(rounds@), ","@)),
            keys_unique(pairs(r@)),
    {
        Self { query: self.query.with(QueryKey::Round, list_text(rounds)) }
    }

    /// Sets the `instance[]` parameter to the given value.
    pub fn instance(self, instance: i32) -> (r: Self)
        ensures
            r@ == with_entry(self@, QueryKey::Instance, int_text(instance as int)),
            keys_unique(pairs(r@)),
    {
        Self { query: self.query.with(QueryKey::Instance, format_int(instance)) }
    }

    /// Sets the `instance[]` parameter to the given values, separated by commas.
    pub fn instances(self, instances: &[i32]) -> (r: Self)
        ensures
            r@ == with_entry(self@, QueryKey::Instance, joined(item_texts(instances@), ","@)),
            keys_unique(pairs(r@)),
    {
        Self { query: self.query.with(QueryKey::Instance, list_text(instances)) }
    }

    /// Sets the `matchnum[]` parameter to the given value.
    pub fn matchnum(self, matchnum: i32) -> (r: Self)
        ensures
            r@ == with_entry(self@, QueryKey::Matchnum, int_text(matchnum as int)),
            keys_unique(pairs(r@)),
    {
        Self { query: self.query.with(QueryKey::Matchnum, format_int(matchnum)) }
    }

    /// Sets the `matchnum[]` parameter to the given values, separated by commas.
    pub fn matchnums(self, matchnums: &[i32]) -> (r: Self)
        ensures
            r@ == with_entry(self@, QueryKey::Matchnum, joined(item_texts(matchnums@), ","@)),
            keys_unique(pairs(r@)),
    {
        Self { query: self.query.with(QueryKey::Matchnum, list_text(matchnums)) }
    }

    /// The query string: `?key=value&...` in the order the keys were first
    /// set, or empty when nothing is set.
    pub fn to_string(&self) -> (r: String)
        ensures
            r@ == render(self@),
    {
        self.query.render()
    }
}

/// Filter parameters for the `/events/:id/divisions/:div/rankings` and `.../finalistRankings` listings.
#[derive(Clone, Debug, PartialEq)]
pub struct DivisionRankingsFilter {
    query: QueryParams,
}

impl View for DivisionRankingsFilter {
    type V = ParamsView;

    closed spec fn view(&self) -> ParamsView {
        self.query@
    }
}

impl Default for DivisionRankingsFilter {
    fn default() -> (r: Self)
        ensures
            r@ == no_params(),
            keys_unique(pairs(r@)),
    {
        Self::new()
    }
}

impl DivisionRankingsFilter {
    /// No parameters.
    pub fn new() -> (r: Self)
        ensures
            r@ == no_params(),
            keys_unique(pairs(r@)),
    {
        Self { query: QueryParams::new() }
    }

    /// Sets the `team[]` parameter to the given value.
    pub fn team(self, team: i32) -> (r: Self)
        ensures
            r@ == with_entry(self@, QueryKey::Team, int_text(team as int)),
            keys_unique(pairs(r@)),
    {
        Self { query: self.query.with(QueryKey::Team, format_int(team)) }
    }

    /// Sets the `team[]` parameter to the given values, separated by commas.
    pub fn teams(self, teams: &[i32]) -> (r: Self)
        ensures
            r@ == with_entry(self@, QueryKey::Team, joined(item_texts(teams@), ","@)),
            keys_unique(pairs(r@)),
    {
        Self { query: self.query.with(QueryKey::Team, list_text(teams)) }
    }

    /// Sets the `rank[]` parameter to the given value.
    pub fn rank(self, rank: i32) -> (r: Self)
        ensures
            r@ == with_entry(self@, QueryKey::Rank, int_text(rank as int)),
            keys_unique(pairs(r@)),
    {
        Self { query: self.query.with(QueryKey::Rank, format_int(rank)) }
    }

    /// Sets the `rank[]` parameter to the given values, separated by commas.
    pub fn ranks(self, ranks: &[i32]) -> (r: Self)
        ensures
            r@ == with_entry(self@, QueryKey::Rank, joined(item_texts(ranks@), ","@)),
            keys_unique(pairs(r@)),
    {
        Self { query: self.query.with(QueryKey::Rank, list_text(ranks)) }
    }

    /// The query string: `?key=value&...` in the order the keys were first
    /// set, or empty when nothing is set.
    pub fn to_string(&self) -> (r: String)
        ensures
            r@ == render(self@),
    {
        self.query.render()
    }
}

} // verus!
