//! Endpoints of the service's versioned API, as paths relative to its
//! base, and the reverse: the endpoint that a full page URL names.

use vstd::prelude::*;
use vstd::string::*;
use crate::filters::{DivisionMatchesFilter, DivisionRankingsFilter, EventAwardsFilter, EventSkillsFilter, EventTeamsFilter, EventsFilter};
use crate::params::render;
use crate::query::{SeasonEventsQuery, SeasonsQuery, TeamAwardsQuery, TeamEventsQuery, TeamMatchesQuery, TeamRankingsQuery, TeamSkillsQuery, TeamsQuery};
use crate::text::{format_int, int_text};

verus! {

/// The base of the versioned API.
pub const V2_API_BASE: &'static str = "https://www.robotevents.com/api/v2";

/// The base of the legacy API.
pub const V1_API_BASE: &'static str = "https://www.robotevents.com/api";

/// The endpoint of the program listing.
pub fn programs_path() -> (r: String)
    ensures
        r@ == "/programs"@,
{
    String::from_str("/programs")
}

/// The endpoint of the team listing, relative to the versioned base.
pub fn teams_path(query: &TeamsQuery) -> (r: String)
    ensures
        r@ == "/teams"@ + render(query@),
{
    let mut out = String::from_str("/teams");
    out.append(query.to_string().as_str());
    out
}

/// The endpoint of one team, relative to the versioned base.
pub fn team_path(team_id: i32) -> (r: String)
    ensures
        r@ == "/teams/"@ + int_text(team_id as int),
{
    let mut out = String::from_str("/teams/");
    out.append(format_int(team_id).as_str());
    out
}

/// The endpoint of the events a team attended, relative to the versioned base.
pub fn team_events_path(team_id: i32, query: &TeamEventsQuery) -> (r: String)
    ensures
        r@ == "/teams/"@ + int_text(team_id as int) + "/events"@ + render(query@),
{
    let mut out = String::from_str("/teams/");
    out.append(format_int(team_id).as_str());
    out.append("/events");
    out.append(query.to_string().as_str());
    out
}

/// The endpoint of the matches a team played, relative to the versioned base.
pub fn team_matches_path(team_id: i32, query: &TeamMatchesQuery) -> (r: String)
    ensures
        r@ == "/teams/"@ + int_text(team_id as int) + "/matches"@ + render(query@),
{
    let mut out = String::from_str("/teams/");
    out.append(format_int(team_id).as_str());
    out.append("/matches");
    out.append(query.to_string().as_str());
    out
}

/// The endpoint of the rankings of a team, relative to the versioned base.
pub fn team_rankings_path(team_id: i32, query: &TeamRankingsQuery) -> (r: String)
    ensures
        r@ == "/teams/"@ + int_text(team_id as int) + "/rankings"@ + render(query@),
{
    let mut out = String::from_str("/teams/");
    out.append(format_int(team_id).as_str());
    out.append("/rankings");
    out.append(query.to_string().as_str());
    out
}

/// The endpoint of the skills runs of a team, relative to the versioned base.
pub fn team_skills_path(team_id: i32, query: &TeamSkillsQuery) -> (r: String)
    ensures
        r@ == "/teams/"@ + int_text(team_id as int) + "/skills"@ + render(query@),
{
    let mut out = String::from_str("/teams/");
    out.append(format_int(team_id).as_str());
    out.append("/skills");
    out.append(query.to_string().as_str());
    out
}

/// The endpoint of the awards a team received, relative to the versioned base.
pub fn team_awards_path(team_id: i32, query: &TeamAwardsQuery) -> (r: String)
    ensures
        r@ == "/teams/"@ + int_text(team_id as int) + "/awards"@ + render(query@),
{
    let mut out = String::from_str("/teams/");
    out.append(format_int(team_id).as_str());
    out.append("/awards");
    out.append(query.to_string().as_str());
    out
}

/// The endpoint of the season listing, relative to the versioned base.
pub fn seasons_path(query: &SeasonsQuery) -> (r: String)
    ensures
        r@ == "/seasons"@ + render(query@),
{
    let mut out = String::from_str("/seasons");
    out.append(query.to_string().as_str());
    out
}

/// The endpoint of one season, relative to the versioned base.
pub fn season_path(season_id: i32) -> (r: String)
    ensures
        r@ == "/seasons/"@ + int_text(season_id as int),
{
    let mut out = String::from_str("/seasons/");
    out.append(format_int(season_id).as_str());
    out
}

/// The endpoint of the events of a season, relative to the versioned base.
pub fn season_events_path(season_id: i32, query: &SeasonEventsQuery) -> (r: String)
    ensures
        r@ == "/seasons/"@ + int_text(season_id as int) + "/events"@ + render(query@),
{
    let mut out = String::from_str("/seasons/");
    out.append(format_int(season_id).as_str());
    out.append("/events");
    out.append(query.to_string().as_str());
    out
}

/// The endpoint of one program, relative to the versioned base.
pub fn program_path(program_id: i32) -> (r: String)
    ensures
        r@ == "/programs/"@ + int_text(program_id as int),
{
    let mut out = String::from_str("/programs/");
    out.append(format_int(program_id).as_str());
    out
}

/// The endpoint of the event listing, relative to the versioned base.
pub fn events_path(query: &EventsFilter) -> (r: String)
    ensures
        r@ == "/events"@ + render(query@),
{
    let mut out = String::from_str("/events");
    out.append(query.to_string().as_str());
    out
}

/// The endpoint of one event, relative to the versioned base.
pub fn event_path(event_id: i32) -> (r: String)
    ensures
        r@ == "/events/"@ + int_text(event_id as int),
{
    let mut out = String::from_str("/events/");
    out.append(format_int(event_id).as_str());
    out
}

/// The endpoint of the teams at an event, relative to the versioned base.
pub fn event_teams_path(event_id: i32, query: &EventTeamsFilter) -> (r: String)
    ensures
        r@ == "/events/"@ + int_text(event_id as int) + "/teams"@ + render(query@),
{
    let mut out = String::from_str("/events/");
    out.append(format_int(event_id).as_str());
    out.append("/teams");
    out.append(query.to_string().as_str());
    out
}

/// The endpoint of the skills runs at an event, relative to the versioned base.
pub fn event_skills_path(event_id: i32, query: &EventSkillsFilter) -> (r: String)
    ensures
        r@ == "/events/"@ + int_text(event_id as int) + "/skills"@ + render(query@),
{
    let mut out = String::from_str("/events/");
    out.append(format_int(event_id).as_str());
    out.append("/skills");
    out.append(query.to_string().as_str());
    out
}

/// The endpoint of the awards of an event, relative to the versioned base.
pub fn event_awards_path(event_id: i32, query: &EventAwardsFilter) -> (r: String)
    ensures
        r@ == "/events/"@ + int_text(event_id as int) + "/awards"@ + render(query@),
{
    let mut out = String::from_str("/events/");
    out.append(format_int(event_id).as_str());
    out.append("/awards");
    out.append(query.to_string().as_str());
    out
}

/// The endpoint of the matches of one division of an event, relative to the versioned base.
pub fn event_division_matches_path(event_id: i32, division_id: i32, query: &DivisionMatchesFilter) -> (r: String)
    ensures
        r@ == "/events/"@ + int_text(event_id as int) + "/divisions/"@ + int_text(division_id as int) + "/matches"@ + render(query@),
{
    let mut out = String::from_str("/events/");
    out.append(format_int(event_id).as_str());
    out.append("/divisions/");
    out.append(format_int(division_id).as_str());
    out.append("/matches");
    out.append(query.to_string().as_str());
    out
}

/// The endpoint of the finalist rankings of one division of an event, relative to the versioned base.
pub fn event_division_finalist_rankings_path(event_id: i32, division_id: i32, query: &DivisionRankingsFilter) -> (r: String)
    ensures
        r@ == "/events/"@ + int_text(event_id as int) + "/divisions/"@ + int_text(division_id as int) + "/finalistRankings"@ + render(query@),
{
    let mut out = String::from_str("/events/");
    out.append(format_int(event_id).as_str());
    out.append("/divisions/");
    out.append(format_int(division_id).as_str());
    out.append("/finalistRankings");
    out.append(query.to_string().as_str());
    out
}

/// The endpoint of the rankings of one division of an event, relative to the versioned base.
pub fn event_division_rankings_path(event_id: i32, division_id: i32, query: &DivisionRankingsFilter) -> (r: String)
    ensures
        r@ == "/events/"@ + int_text(event_id as int) + "/divisions/"@ + int_text(division_id as int) + "/rankings"@ + render(query@),
{
    let mut out = String::from_str("/events/");
    out.append(format_int(event_id).as_str());
    out.append("/divisions/");
    out.append(format_int(division_id).as_str());
    out.append("/rankings");
    out.append(query.to_string().as_str());
    out
}

/// `s` with every leading copy of `prefix` removed, as
/// `str::trim_start_matches` does with a string pattern.
pub open spec fn trim_prefix(s: Seq<char>, prefix: Seq<char>) -> Seq<char>
    decreases s.len(),
{
    if prefix.len() > 0 && prefix.len() <= s.len() && s.take(prefix.len() as int) == prefix {
        trim_prefix(s.skip(prefix.len() as int), prefix)
    } else {
        s
    }
}

/// Whether `s` holds `prefix` at character position `at`.
fn holds_at(s: &str, prefix: &str, at: usize) -> (r: bool)
    requires
        at <= s@.len(),
    ensures
        r == (prefix@.len() <= s@.len() - at && s@.subrange(at as int, at + prefix@.len())
            == prefix@),
{
    let n = s.unicode_len();
    let m = prefix.unicode_len();
    if m > n - at {
        return false;
    }
    let mut i: usize = 0;
    while i < m
        invariant
            m == prefix@.len(),
            n == s@.len(),
            at + m <= n,
            i <= m,
            forall|j: int| 0 <= j < i ==> s@[at + j] == #[trigger] prefix@[j],
        decreases m - i,
    {
        if s.get_char(at + i) != prefix.get_char(i) {
            assert(s@.subrange(at as int, at + m)[i as int] != prefix@[i as int]);
            return false;
        }
        i = i + 1;
    }
    assert(s@.subrange(at as int, at + m) =~= prefix@);
    true
}

/// The endpoint that a page URL of the versioned API names: the URL with
/// every leading copy of the API base removed.
pub fn endpoint_of(url: &str) -> (r: String)
    ensures
        r@ == trim_prefix(url@, V2_API_BASE@),
{
    let base = V2_API_BASE;
    let n = url.unicode_len();
    let m = base.unicode_len();
    if m == 0 {
        return String::from_str(url);
    }
    let mut at: usize = 0;
    assert(url@.skip(0) =~= url@);
    while at < n && holds_at(url, base, at)
        invariant
            n == url@.len(),
            m == base@.len(),
            m > 0,
            at <= n,
            trim_prefix(url@.skip(at as int), base@) == trim_prefix(url@, base@),
        decreases n - at,
    {
        proof {
            let rest = url@.skip(at as int);
            assert(rest.take(m as int) =~= url@.subrange(at as int, at + m));
            assert(rest.skip(m as int) =~= url@.skip(at + m));
        }
        at = at + m;
    }
    proof {
        let rest = url@.skip(at as int);
        if m <= rest.len() {
            assert(rest.take(m as int) =~= url@.subrange(at as int, at + m));
        }
        assert(url@.subrange(at as int, n as int) =~= rest);
    }
    String::from_str(url.substring_char(at, n))
}

} // verus!
