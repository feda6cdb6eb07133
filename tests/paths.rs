use robotevents::filters::{DivisionRankingsFilter, EventsFilter};
use robotevents::paths::{
    endpoint_of, event_division_finalist_rankings_path, event_division_rankings_path, events_path, program_path, programs_path,
    team_events_path, team_path, teams_path, V2_API_BASE,
};
use robotevents::query::{PaginatedQuery, TeamEventsQuery, TeamsQuery};
use robotevents::schema::PageMeta;

fn meta_with_links() -> PageMeta {
    PageMeta {
        current_page: 2,
        first_page_url: String::from("https://www.robotevents.com/api/v2/teams?page=1"),
        from: Some(251),
        to: Some(500),
        last_page: 4,
        last_page_url: String::from("https://www.robotevents.com/api/v2/teams?page=4"),
        prev_page_url: Some(String::from("https://www.robotevents.com/api/v2/teams?page=1")),
        next_page_url: None,
        path: String::from("https://www.robotevents.com/api/v2/teams"),
        per_page: 250,
        total: 900,
    }
}

#[test]
fn endpoint_paths() {
    assert_eq!(teams_path(&TeamsQuery::new()), "/teams");
    assert_eq!(teams_path(&TeamsQuery::new().page(3)), "/teams?page=3");
    assert_eq!(team_path(139), "/teams/139");
    assert_eq!(
        team_events_path(-5, &TeamEventsQuery::new().season(181)),
        "/teams/-5/events?season%5B%5D=181"
    );
    assert_eq!(programs_path(), "/programs");
    assert_eq!(program_path(1), "/programs/1");
    assert_eq!(events_path(&EventsFilter::new().sku(12)), "/events?sku%5B%5D=12");
    assert_eq!(
        event_division_finalist_rankings_path(51000, 1, &DivisionRankingsFilter::new().rank(1)),
        "/events/51000/divisions/1/finalistRankings?rank%5B%5D=1"
    );
    assert_eq!(
        event_division_rankings_path(51000, 2, &DivisionRankingsFilter::new()),
        "/events/51000/divisions/2/rankings"
    );
}

#[test]
fn page_urls_become_endpoints() {
    assert_eq!(endpoint_of("https://www.robotevents.com/api/v2/teams?page=2"), "/teams?page=2");
    let twice = format!("{V2_API_BASE}{V2_API_BASE}/events");
    assert_eq!(endpoint_of(&twice), "/events");
    assert_eq!(endpoint_of("/seasons"), "/seasons");
    assert_eq!(endpoint_of(""), "");
    assert_eq!(endpoint_of("https://www.robotevents.com/api/teams"), "https://www.robotevents.com/api/teams");
    assert_eq!(endpoint_of(V2_API_BASE), "");
}

#[test]
fn page_meta_links() {
    let meta = meta_with_links();
    assert_eq!(meta.prev_page_endpoint(), Some(String::from("/teams?page=1")));
    assert_eq!(meta.next_page_endpoint(), None);
    assert_eq!(meta.first_page_endpoint(), "/teams?page=1");
    assert_eq!(meta.last_page_endpoint(), "/teams?page=4");
}
