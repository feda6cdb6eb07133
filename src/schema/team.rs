//! Teams' grade levels.

use vstd::prelude::*;
use vstd::string::*;
use crate::text::ParamText;

verus! {

/// The grade level of a team.
#[derive(Clone, Copy, Debug, PartialEq, Eq, Structural)]
pub enum Grade {
    College,
    HighSchool,
    MiddleSchool,
    ElementarySchool,
}

/// The display name of a Grade.
pub open spec fn grade_text(x: Grade) -> Seq<char> {
    match x {
        Grade::College => "College"@,
        Grade::HighSchool => "High School"@,
        Grade::MiddleSchool => "Middle School"@,
        Grade::ElementarySchool => "Elementary School"@,
    }
}

impl Grade {
    /// The display name.
    pub fn to_string(&self) -> (r: String)
        ensures
            r@ == grade_text(*self),
    {
        let s: &str = match self {
            Grade::College => "College",
            Grade::HighSchool => "High School",
            Grade::MiddleSchool => "Middle School",
            Grade::ElementarySchool => "Elementary School",
        };
        String::from_str(s)
    }
}

impl ParamText for Grade {
    open spec fn text_view(&self) -> Seq<char> {
        grade_text(*self)
    }

    fn param_text(&self) -> (r: String) {
        self.to_string()
    }
}

} // verus!
