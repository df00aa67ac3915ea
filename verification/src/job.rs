//! The job record itself: cloning and the status color lookup.
use vstd::prelude::*;

use crate::{Job, JobStatus, StatusColor};

verus! {

/// The display color of each status: navy blue for applied, cyan for
/// interview, green for offer, red for rejected, gray for ghosted.
pub open spec fn status_color(s: JobStatus) -> StatusColor {
    match s {
        JobStatus::Applied => StatusColor { red: 65, green: 105, blue: 225 },
        JobStatus::Interview => StatusColor { red: 0, green: 255, blue: 255 },
        JobStatus::Offer => StatusColor { red: 0, green: 255, blue: 0 },
        JobStatus::Rejected => StatusColor { red: 255, green: 0, blue: 0 },
        JobStatus::Ghosted => StatusColor { red: 128, green: 128, blue: 128 },
    }
}

impl Job {
    /// The color a chart segment for this record is drawn in, a pure
    /// function of the record's status.
    pub fn get_status_color_mapping(&self) -> (r: StatusColor)
        ensures
            r == status_color(self.status),
    {
        match self.status {
            JobStatus::Applied => StatusColor { red: 65, green: 105, blue: 225 },
            JobStatus::Interview => StatusColor { red: 0, green: 255, blue: 255 },
            JobStatus::Offer => StatusColor { red: 0, green: 255, blue: 0 },
            JobStatus::Rejected => StatusColor { red: 255, green: 0, blue: 0 },
            JobStatus::Ghosted => StatusColor { red: 128, green: 128, blue: 128 },
        }
    }
}

impl Clone for Job {
    /// A clone is equal to the original record, field for field.
    fn clone(&self) -> (r: Self)
        ensures
            r == *self,
    {
        let role_location = match &self.role_location {
            Some(l) => Some(l.clone()),
            None => None,
        };
        let r = Job {
            id: self.id,
            company: self.company.clone(),
            role: self.role.clone(),
            role_location,
            status: self.status,
            timestamp: self.timestamp,
            source: self.source,
        };
        r
    }
}

} // verus!
