//! In-memory job-application tracker: a record store with verified
//! mutation operations, status summaries, case-insensitive filtering,
//! and calendar-day timeline bucketing with inverse hit-testing.
use vstd::prelude::*;

pub mod filter;
pub mod job;
pub mod job_source;
pub mod job_status;
pub mod job_store;
pub mod summary_counts;
pub mod timeline;

verus! {

/// The states a job application may be in. A job application is in
/// exactly one state at any moment.
#[derive(Clone, Copy, Debug, PartialEq, Eq, Structural)]
pub enum JobStatus {
    Applied,
    Interview,
    Offer,
    Rejected,
    Ghosted,
}

/// Where a job application was discovered. Free-text input that names
/// no known channel normalizes to `NotProvided` rather than failing.
#[derive(Clone, Copy, Debug, PartialEq, Eq, Structural)]
pub enum JobSource {
    Recruiter,
    LinkedIn,
    Monster,
    Indeed,
    NotProvided,
    Talent,
    Glassdoor,
    ZipRecruiter,
}

/// Representation of a job application entered by the user.
#[derive(Debug)]
pub struct Job {
    /// Sequential id number, unique within the store and assigned by it.
    pub id: u32,
    /// Name of the place the user applied to.
    pub company: String,
    /// Name of the position the user applied to.
    pub role: String,
    /// Location of the position.
    pub role_location: Option<String>,
    /// State of this job application.
    pub status: JobStatus,
    /// When this application was entered into the tracker, as whole
    /// seconds since the Unix epoch (a UTC instant). Set at creation
    /// and mutable thereafter only through an explicit edit.
    pub timestamp: u64,
    /// Where this job application was discovered.
    pub source: Option<JobSource>,
}

/// Owns the in-memory record list and the last recomputed summary.
#[derive(Debug)]
pub struct JobStore {
    pub jobs: Vec<Job>,
    pub summary_stats: SummaryCounts,
}

/// Derived status counters: the total and one count per status value.
/// Only valid as of its last recomputation.
#[derive(Clone, Copy, Debug, PartialEq, Eq, Structural)]
pub struct SummaryCounts {
    pub total: usize,
    pub rejected: usize,
    pub ghosted: usize,
    pub applied: usize,
    pub interviews: usize,
    pub offers: usize,
}

/// A display color for a status, as plain red/green/blue components.
#[derive(Clone, Copy, Debug, PartialEq, Eq, Structural)]
pub struct StatusColor {
    pub red: u8,
    pub green: u8,
    pub blue: u8,
}

} // verus!
