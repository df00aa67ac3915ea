//! Display text for the states a job application may be in.
use vstd::prelude::*;

use crate::JobStatus;

verus! {

/// The display text of each status, as a sequence of characters.
pub open spec fn status_text(s: JobStatus) -> Seq<char> {
    match s {
        JobStatus::Applied => "Applied"@,
        JobStatus::Interview => "Interview"@,
        JobStatus::Offer => "Offer"@,
        JobStatus::Rejected => "Rejected"@,
        JobStatus::Ghosted => "Ghosted"@,
    }
}

impl JobStatus {
    /// The text shown for this status in any user-facing listing.
    pub fn display_text(&self) -> (r: &'static str)
        ensures
            r@ == status_text(*self),
    {
        match self {
            JobStatus::Applied => "Applied",
            JobStatus::Interview => "Interview",
            JobStatus::Offer => "Offer",
            JobStatus::Rejected => "Rejected",
            JobStatus::Ghosted => "Ghosted",
        }
    }
}

} // verus!
