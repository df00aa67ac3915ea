//! The channels an application was found through: display text and a
//! permissive parser that defaults to `NotProvided` on unknown input.
use vstd::prelude::*;

use crate::JobSource;
use crate::filter::{lower_of, to_lowercase_string};
use vstd::string::StringExecFns;

verus! {

/// The display text of each source, as a sequence of characters.
pub open spec fn source_text(s: JobSource) -> Seq<char> {
    match s {
        JobSource::LinkedIn => "LinkedIn"@,
        JobSource::Monster => "Monster"@,
        JobSource::Indeed => "Indeed"@,
        JobSource::Recruiter => "Recruiter"@,
        JobSource::NotProvided => "Not provided"@,
        JobSource::Talent => "Talent.com"@,
        JobSource::Glassdoor => "Glassdoor"@,
        JobSource::ZipRecruiter => "ZipRecruiter"@,
    }
}

/// The source named by an already lowercase-folded text; any text that
/// names no known channel normalizes to `NotProvided`.
pub open spec fn parse_source(t: Seq<char>) -> JobSource {
    if t == "linkedin"@ {
        JobSource::LinkedIn
    } else if t == "monster"@ {
        JobSource::Monster
    } else if t == "indeed"@ {
        JobSource::Indeed
    } else if t == "recruiter"@ {
        JobSource::Recruiter
    } else if t == "talent.com"@ {
        JobSource::Talent
    } else if t == "glassdoor"@ {
        JobSource::Glassdoor
    } else if t == "ziprecruiter"@ {
        JobSource::ZipRecruiter
    } else {
        JobSource::NotProvided
    }
}

impl JobSource {
    /// The text shown for this source in any user-facing listing.
    pub fn display_text(&self) -> (r: &'static str)
        ensures
            r@ == source_text(*self),
    {
        match self {
            JobSource::LinkedIn => "LinkedIn",
            JobSource::Monster => "Monster",
            JobSource::Indeed => "Indeed",
            JobSource::Recruiter => "Recruiter",
            JobSource::NotProvided => "Not provided",
            JobSource::Talent => "Talent.com",
            JobSource::Glassdoor => "Glassdoor",
            JobSource::ZipRecruiter => "ZipRecruiter",
        }
    }

    /// Parse free text into a source, case-insensitively. Unrecognized
    /// input yields `NotProvided` rather than an error, so the call
    /// always succeeds.
    pub fn from_str(s: &str) -> (r: Result<JobSource, String>)
        ensures
            r is Ok,
            r->Ok_0 == parse_source(lower_of(s@)),
    {
        let lowered = to_lowercase_string(s);
        let v = if lowered == String::from_str("linkedin") {
            JobSource::LinkedIn
        } else if lowered == String::from_str("monster") {
            JobSource::Monster
        } else if lowered == String::from_str("indeed") {
            JobSource::Indeed
        } else if lowered == String::from_str("recruiter") {
            JobSource::Recruiter
        } else if lowered == String::from_str("talent.com") {
            JobSource::Talent
        } else if lowered == String::from_str("glassdoor") {
            JobSource::Glassdoor
        } else if lowered == String::from_str("ziprecruiter") {
            JobSource::ZipRecruiter
        } else {
            JobSource::NotProvided
        };
        Ok(v)
    }
}

impl Default for JobSource {
    /// A source left unset reads as `NotProvided`.
    fn default() -> (r: Self)
        ensures
            r == JobSource::NotProvided,
    {
        JobSource::NotProvided
    }
}

} // verus!
