use robotevents::filters::{DivisionMatchesFilter, EventTeamsFilter, EventsFilter, SeasonsFilter};
use robotevents::query::{PaginatedQuery, SeasonEventsQuery, TeamMatchesQuery, TeamSkillsQuery, TeamsQuery};
use robotevents::schema::{EventLevel, EventType, Grade, MatchRound, SkillType};
use robotevents::text::{format_bool, format_int, list_text};

#[test]
fn empty_query_renders_nothing() {
    assert_eq!(TeamsQuery::new().to_string(), "");
    assert_eq!(EventsFilter::default().to_string(), "");
}

#[test]
fn parameters_render_in_key_order() {
    let q = TeamsQuery::new().id(5).grade(Grade::HighSchool).page(2);
    assert_eq!(q.to_string(), "?id%5B%5D=5&grade%5B%5D=High School&page=2");
    let q = q.id(-17).per_page(250);
    assert_eq!(
        q.to_string(),
        "?id%5B%5D=-17&grade%5B%5D=High School&page=2&per_page=250"
    );
}

#[test]
fn lists_are_joined_with_commas() {
    let q = TeamsQuery::new()
        .ids(&[1, 22, 333])
        .numbers(vec![String::from("229V"), String::from("1A")])
        .grades(&[Grade::College, Grade::ElementarySchool]);
    assert_eq!(
        q.to_string(),
        "?id%5B%5D=1,22,333&number%5B%5D=229V,1A&grade%5B%5D=College,Elementary School"
    );
    assert_eq!(TeamsQuery::new().events(&[]).to_string(), "?event%5B%5D=");
}

#[test]
fn countries_keep_the_last() {
    let q = TeamsQuery::new().countries(&[String::from("US"), String::from("CA")]);
    assert_eq!(q.to_string(), "?country%5B%5D=CA");
    assert_eq!(TeamsQuery::new().countries(&[]).to_string(), "");
    let f = EventTeamsFilter::new().countries(&[1, 2]).registered(String::from("true"));
    assert_eq!(f.to_string(), "?registered=true&country%5B%5D=1,2");
}

#[test]
fn rounds_stand_by_number() {
    let q = TeamMatchesQuery::new().round(MatchRound::RoundOf16);
    assert_eq!(q.to_string(), "?round%5B%5D=6");
    let f = DivisionMatchesFilter::new().rounds(&[MatchRound::Finals, MatchRound::Practice]);
    assert_eq!(f.to_string(), "?round%5B%5D=5,1");
    assert_eq!(MatchRound::Qualification.to_string(), "Qualification");
    assert_eq!(MatchRound::RoundOf16.to_string(), "Round of 16");
}

#[test]
fn enum_texts() {
    assert_eq!(SkillType::PackageDeliveryTime.to_string(), "package_delivery_time");
    assert_eq!(EventType::Workshop.to_string(), "Workshop");
    assert_eq!(EventLevel::Signature.to_string(), "Signature");
    assert_eq!(Grade::MiddleSchool.to_string(), "Middle School");
    let q = TeamSkillsQuery::new().skill_types(&[SkillType::Driver, SkillType::Programming]);
    assert_eq!(q.to_string(), "?type%5B%5D=driver,programming");
}

#[test]
fn keys_follow_the_service_names() {
    let f = EventsFilter::new().my_events(true).event_type(EventType::League).end(String::from("2024-01-01"));
    assert_eq!(f.to_string(), "?end=2024-01-01&my_events=true&event_type%5B%5D=League");
    let f = SeasonsFilter::new().active(false).end(String::from("2025"));
    assert_eq!(f.to_string(), "?start=2025&active=false");
    let q = SeasonEventsQuery::new().levels(&[EventLevel::World, EventLevel::State]);
    assert_eq!(q.to_string(), "?season%5B%5D=World,State");
}

#[test]
fn integer_and_bool_texts() {
    assert_eq!(format_int(0), "0");
    assert_eq!(format_int(7), "7");
    assert_eq!(format_int(-40), "-40");
    assert_eq!(format_int(i32::MAX), "2147483647");
    assert_eq!(format_int(i32::MIN), "-2147483648");
    assert_eq!(format_bool(true), "true");
    assert_eq!(format_bool(false), "false");
    assert_eq!(list_text(&[3, -4]), "3,-4");
    assert_eq!(list_text::<i32>(&[]), "");
    assert_eq!(list_text(&[String::from("a")]), "a");
}

#[test]
fn page_replaces_page() {
    let q = TeamsQuery::new().page(1).my_teams(true).page(3);
    assert_eq!(q.to_string(), "?myTeams=true&page=3");
    assert_eq!(q.clone(), q);
}

#[test]
fn setter_order_does_not_matter() {
    let a = TeamsQuery::new().id(1).event(2);
    let b = TeamsQuery::new().event(2).id(1);
    assert_eq!(a, b);
    assert_eq!(a.to_string(), "?id%5B%5D=1&event%5B%5D=2");
    assert_eq!(b.to_string(), a.to_string());
    let c = EventsFilter::new().season(3).sku(9).id(4);
    let d = EventsFilter::new().id(4).season(3).sku(9);
    assert_eq!(c, d);
    assert_eq!(c.to_string(), "?id%5B%5D=4&sku%5B%5D=9&season%5B%5D=3");
    let e = TeamsQuery::new().page(2).per_page(50).grade(Grade::College);
    let f = TeamsQuery::new().grade(Grade::College).per_page(50).page(2);
    assert_eq!(e, f);
}
