//! Events, their divisions, levels and types.

use vstd::prelude::*;
use vstd::string::*;
use crate::text::ParamText;

verus! {

/// A division of an event.
#[derive(Clone, Debug, PartialEq)]
pub struct Division {
    pub id: i32,
    pub name: String,
    pub order: i32,
}

/// The level of an event.
#[derive(Clone, Copy, Debug, PartialEq, Eq, Structural)]
pub enum EventLevel {
    World,
    National,
    Regional,
    State,
    Signature,
    Other,
}

/// The display name of a EventLevel.
pub open spec fn event_level_text(x: EventLevel) -> Seq<char> {
    match x {
        EventLevel::World => "World"@,
        EventLevel::National => "National"@,
        EventLevel::Regional => "Regional"@,
        EventLevel::State => "State"@,
        EventLevel::Signature => "Signature"@,
        EventLevel::Other => "Other"@,
    }
}

impl EventLevel {
    /// The display name.
    pub fn to_string(&self) -> (r: String)
        ensures
            r@ == event_level_text(*self),
    {
        let s: &str = match self {
            EventLevel::World => "World",
            EventLevel::National => "National",
            EventLevel::Regional => "Regional",
            EventLevel::State => "State",
            EventLevel::Signature => "Signature",
            EventLevel::Other => "Other",
        };
        String::from_str(s)
    }
}

impl ParamText for EventLevel {
    open spec fn text_view(&self) -> Seq<char> {
        event_level_text(*self)
    }

    fn param_text(&self) -> (r: String) {
        self.to_string()
    }
}

/// The kind of an event.
#[derive(Clone, Copy, Debug, PartialEq, Eq, Structural)]
pub enum EventType {
    Tournament,
    League,
    Workshop,
    Virtual,
}

/// The display name of a EventType.
pub open spec fn event_type_text(x: EventType) -> Seq<char> {
    match x {
        EventType::Tournament => "Tournament"@,
        EventType::League => "League"@,
        EventType::Workshop => "Workshop"@,
        EventType::Virtual => "Virtual"@,
    }
}

impl EventType {
    /// The display name.
    pub fn to_string(&self) -> (r: String)
        ensures
            r@ == event_type_text(*self),
    {
        let s: &str = match self {
            EventType::Tournament => "Tournament",
            EventType::League => "League",
            EventType::Workshop => "Workshop",
            EventType::Virtual => "Virtual",
        };
        String::from_str(s)
    }
}

impl ParamText for EventType {
    open spec fn text_view(&self) -> Seq<char> {
        event_type_text(*self)
    }

    fn param_text(&self) -> (r: String) {
        self.to_string()
    }
}

} // verus!
