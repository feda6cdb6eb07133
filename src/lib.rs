//! Client-side core of a paginated competition-results service: query
//! builders, a throttle-aware retry state machine and an order-preserving
//! bulk page collector.

pub mod bulk;
pub mod error;
pub mod filters;
pub mod params;
pub mod paths;
pub mod query;
pub mod retry;
pub mod schema;
pub mod text;

pub use bulk::BulkCollection;
pub use error::Error;
pub use filters::{
    DivisionMatchesFilter, DivisionRankingsFilter, EventAwardsFilter, EventSkillsFilter,
    EventTeamsFilter, EventsFilter, SeasonEventsFilter, SeasonsFilter, TeamAwardsFilter,
    TeamEventsFilter, TeamMatchesFilter, TeamRankingsFilter, TeamSkillsFilter, TeamsFilter,
};
pub use query::{
    PaginatedQuery, SeasonEventsQuery, SeasonsQuery, TeamAwardsQuery, TeamEventsQuery,
    TeamMatchesQuery, TeamRankingsQuery, TeamSkillsQuery, TeamsQuery,
};
pub use retry::{PageAction, PageRetry, Reply, RequestRetry, RetryAction};
pub use schema::{
    Alliance, AllianceColor, AllianceTeam, Award, AwardClassification, AwardDesignation,
    Division, EventLevel, EventType, Grade, IdInfo, Match, MatchRound, PageMeta,
    PaginatedResponse, Program, Season, Skill, SkillType, TeamAwardWinner,
};
