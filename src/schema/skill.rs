//! Skills runs.

use vstd::prelude::*;
use vstd::string::*;
use crate::text::ParamText;
use super::IdInfo;

verus! {

/// One skills run of a team at an event.
#[derive(Clone, Debug, PartialEq)]
pub struct Skill {
    pub id: i32,
    pub event: IdInfo,
    pub team: IdInfo,
    pub skill_type: SkillType,
    pub season: IdInfo,
    pub division: IdInfo,
    pub rank: i32,
    pub score: i32,
    pub attempts: i32,
}

/// The kind of a skills run.
#[derive(Clone, Copy, Debug, PartialEq, Eq, Structural)]
pub enum SkillType {
    Driver,
    Programming,
    PackageDeliveryTime,
}

/// The display name of a SkillType.
pub open spec fn skill_type_text(x: SkillType) -> Seq<char> {
    match x {
        SkillType::Driver => "driver"@,
        SkillType::Programming => "programming"@,
        SkillType::PackageDeliveryTime => "package_delivery_time"@,
    }
}

impl SkillType {
    /// The display name.
    pub fn to_string(&self) -> (r: String)
        ensures
            r@ == skill_type_text(*self),
    {
        let s: &str = match self {
            SkillType::Driver => "driver",
            SkillType::Programming => "programming",
            SkillType::PackageDeliveryTime => "package_delivery_time",
        };
        String::from_str(s)
    }
}

impl ParamText for SkillType {
    open spec fn text_view(&self) -> Seq<char> {
        skill_type_text(*self)
    }

    fn param_text(&self) -> (r: String) {
        self.to_string()
    }
}

} // verus!
