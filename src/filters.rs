//! Filters of the service's listings, rendered as query strings.

pub mod event;
pub mod season;
pub mod team;

pub use event::{
    DivisionMatchesFilter, DivisionRankingsFilter, EventAwardsFilter, EventSkillsFilter,
    EventTeamsFilter, EventsFilter,
};
pub use season::{SeasonEventsFilter, SeasonsFilter};
pub use team::{
    TeamAwardsFilter, TeamEventsFilter, TeamMatchesFilter, TeamRankingsFilter, TeamSkillsFilter,
    TeamsFilter,
};
