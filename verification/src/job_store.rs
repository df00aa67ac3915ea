//! The record store: owns the in-memory record list, assigns
//! identifiers, applies mutations, and recomputes the summary on
//! demand. Every operation returns a snapshot of the resulting list;
//! durable storage is a collaborator outside this crate.
use vstd::prelude::*;

use crate::{Job, JobSource, JobStatus, JobStore, SummaryCounts};
use crate::filter::lower_of;
use crate::job_source::parse_source;
use crate::summary_counts::summarize;
use vstd::pervasive::VecAdditionalExecFns;

verus! {

/// The largest id in use, or zero if there are no records.
pub open spec fn max_job_id(jobs: Seq<Job>) -> int
    decreases jobs.len(),
{
    if jobs.len() == 0 {
        0
    } else {
        let rest = max_job_id(jobs.drop_last());
        if jobs.last().id > rest {
            jobs.last().id as int
        } else {
            rest
        }
    }
}

/// Every id in use is at most the store's largest id, so a record given
/// id `max_job_id + 1` has a strictly larger id than every record
/// before it: ids assigned by successive additions strictly increase.
pub proof fn lemma_max_job_id_ge(jobs: Seq<Job>, i: int)
    requires
        0 <= i < jobs.len(),
    ensures
        jobs[i].id <= max_job_id(jobs),
    decreases jobs.len(),
{
    if i < jobs.len() - 1 {
        lemma_max_job_id_ge(jobs.drop_last(), i);
    }
}

/// Relies on chrono's Utc::now and DateTime::timestamp for the current
/// moment as whole seconds since the Unix epoch. The value depends on
/// the system clock, so nothing is promised of it.
#[verifier::external_body]
fn now_unix_seconds() -> i64 {
    chrono::Utc::now().timestamp()
}

/// An element-by-element copy of the record list.
fn clone_jobs(jobs: &Vec<Job>) -> (r: Vec<Job>)
    ensures
        r@ == jobs@,
{
    let mut r: Vec<Job> = Vec::new();
    let mut i: usize = 0;
    while i < jobs.len()
        invariant
            i <= jobs@.len(),
            r@ == jobs@.take(i as int),
        decreases jobs@.len() - i,
    {
        r.push(jobs[i].clone());
        proof {
            assert(jobs@.take(i + 1) =~= jobs@.take(i as int).push(jobs@[i as int]));
        }
        i += 1;
    }
    proof {
        assert(jobs@.take(jobs@.len() as int) =~= jobs@);
    }
    r
}

impl JobStore {
    /// Identifiers are strictly increasing along the list, so each id
    /// occurs at most once.
    pub open spec fn wf(self) -> bool {
        forall|i: int, j: int|
            #![trigger self.jobs@[i].id, self.jobs@[j].id]
            0 <= i < j < self.jobs@.len() ==> self.jobs@[i].id < self.jobs@[j].id
    }

    /// In a well-formed store no two positions hold the same id: the
    /// record an id names is unique.
    pub proof fn lemma_ids_unique(self)
        requires
            self.wf(),
        ensures
            forall|i: int, j: int|
                #![trigger self.jobs@[i].id, self.jobs@[j].id]
                0 <= i < self.jobs@.len() && 0 <= j < self.jobs@.len() && i != j
                    ==> self.jobs@[i].id != self.jobs@[j].id,
    {
    }

    /// The position of the record with the given id, if any.
    fn find_index_by_id(&self, id: u32) -> (r: Option<usize>)
        ensures
            match r {
                Some(i) => i < self.jobs@.len() && self.jobs@[i as int].id == id,
                None => forall|k: int| 0 <= k < self.jobs@.len() ==> self.jobs@[k].id != id,
            },
    {
        let mut i: usize = 0;
        while i < self.jobs.len()
            invariant
                i <= self.jobs@.len(),
                forall|k: int| 0 <= k < i ==> self.jobs@[k].id != id,
            decreases self.jobs@.len() - i,
        {
            if self.jobs[i].id == id {
                return Some(i);
            }
            i += 1;
        }
        None
    }

    /// The current in-memory record list, as a snapshot. The store is
    /// the sole source of truth: listing never touches durable storage.
    pub fn list_jobs(&self) -> (r: Vec<Job>)
        ensures
            r@ == self.jobs@,
    {
        clone_jobs(&self.jobs)
    }

    /// Create a record at the given instant: its id is one more than
    /// the largest id in use (so strictly larger than every existing
    /// id), its status starts as `Applied`, and its source is parsed
    /// permissively from the given text. The record is appended and the
    /// resulting list returned.
    pub fn add_job_at(
        &mut self,
        company: String,
        role: String,
        new_role_location: String,
        new_source: String,
        timestamp: u64,
    ) -> (r: Vec<Job>)
        requires
            old(self).wf(),
            max_job_id(old(self).jobs@) < u32::MAX,
        ensures
            final(self).wf(),
            final(self).jobs@.len() == old(self).jobs@.len() + 1,
            forall|k: int| 0 <= k < old(self).jobs@.len()
                ==> final(self).jobs@[k] == old(self).jobs@[k],
            final(self).jobs@.last().id == max_job_id(old(self).jobs@) + 1,
            final(self).jobs@.last().company == company,
            final(self).jobs@.last().role == role,
            final(self).jobs@.last().role_location == Some(new_role_location),
            final(self).jobs@.last().status == JobStatus::Applied,
            final(self).jobs@.last().timestamp == timestamp,
            final(self).jobs@.last().source == Some(parse_source(lower_of(new_source@))),
            final(self).summary_stats == old(self).summary_stats,
            r@ == final(self).jobs@,
    {
        let mut max_id: u32 = 0;
        let mut i: usize = 0;
        while i < self.jobs.len()
            invariant
                i <= self.jobs@.len(),
                max_id == max_job_id(self.jobs@.take(i as int)),
            decreases self.jobs@.len() - i,
        {
            proof {
                assert(self.jobs@.take(i + 1).drop_last() =~= self.jobs@.take(i as int));
                assert(self.jobs@.take(i + 1).last() == self.jobs@[i as int]);
            }
            if self.jobs[i].id > max_id {
                max_id = self.jobs[i].id;
            }
            i += 1;
        }
        proof {
            assert(self.jobs@.take(self.jobs@.len() as int) =~= self.jobs@);
        }
        let source = match JobSource::from_str(new_source.as_str()) {
            Ok(s) => s,
            Err(_) => JobSource::NotProvided,
        };
        let new_job_id = max_id + 1;
        let job = Job {
            id: new_job_id,
            company,
            role,
            role_location: Some(new_role_location),
            status: JobStatus::Applied,
            timestamp,
            source: Some(source),
        };
        self.jobs.push(job);
        proof {
            assert forall|a: int, b: int| 0 <= a < b < self.jobs@.len()
                implies self.jobs@[a].id < self.jobs@[b].id by {
                if b == self.jobs@.len() - 1 {
                    lemma_max_job_id_ge(old(self).jobs@, a);
                }
            }
        }
        clone_jobs(&self.jobs)
    }

    /// Create a record per `add_job_at`, timestamped with the current
    /// moment read from the system clock.
    pub fn add_job(
        &mut self,
        company: String,
        role: String,
        new_role_location: String,
        new_source: String,
    ) -> (r: Vec<Job>)
        requires
            old(self).wf(),
            max_job_id(old(self).jobs@) < u32::MAX,
        ensures
            final(self).wf(),
            final(self).jobs@.len() == old(self).jobs@.len() + 1,
            forall|k: int| 0 <= k < old(self).jobs@.len()
                ==> final(self).jobs@[k] == old(self).jobs@[k],
            final(self).jobs@.last().id == max_job_id(old(self).jobs@) + 1,
            final(self).jobs@.last().company == company,
            final(self).jobs@.last().role == role,
            final(self).jobs@.last().role_location == Some(new_role_location),
            final(self).jobs@.last().status == JobStatus::Applied,
            final(self).jobs@.last().source == Some(parse_source(lower_of(new_source@))),
            final(self).summary_stats == old(self).summary_stats,
            r@ == final(self).jobs@,
    {
        let now = now_unix_seconds();
        let timestamp: u64 = if now < 0 {
            0
        } else {
            now as u64
        };
        self.add_job_at(company, role, new_role_location, new_source, timestamp)
    }

    /// Remove the record at the given positional index into the current
    /// list; an out-of-range index is a no-op, not an error. Returns
    /// the resulting list.
    pub fn delete_job(&mut self, index: usize) -> (r: Vec<Job>)
        requires
            old(self).wf(),
        ensures
            final(self).wf(),
            index < old(self).jobs@.len() ==> final(self).jobs@ == old(self).jobs@.remove(
                index as int,
            ),
            index >= old(self).jobs@.len() ==> *final(self) == *old(self),
            final(self).summary_stats == old(self).summary_stats,
            r@ == final(self).jobs@,
    {
        if index < self.jobs.len() {
            self.jobs.remove(index);
            proof {
                old(self).jobs@.remove_ensures(index as int);
                assert forall|a: int, b: int| 0 <= a < b < self.jobs@.len()
                    implies self.jobs@[a].id < self.jobs@[b].id by {
                    if a < index && b < index {
                    } else if a < index {
                        assert(self.jobs@[b] == old(self).jobs@[b + 1]);
                    } else {
                        assert(self.jobs@[a] == old(self).jobs@[a + 1]);
                        assert(self.jobs@[b] == old(self).jobs@[b + 1]);
                    }
                }
            }
        }
        clone_jobs(&self.jobs)
    }

    /// Recompute the summary counters from the current record list in a
    /// single pass. The list itself is unchanged, and the fresh
    /// counters provably sum to the total.
    pub fn calculate_summary_stats(&mut self)
        ensures
            final(self).jobs == old(self).jobs,
            final(self).summary_stats.summarizes(old(self).jobs@),
            final(self).summary_stats.wf(),
    {
        self.summary_stats = summarize(&self.jobs);
    }

    /// Set the status of the record with the given id; an unknown id is
    /// a silent no-op. Only that record's status changes. Returns the
    /// resulting list.
    pub fn update_status(&mut self, id: u32, new_status: JobStatus) -> (r: Vec<Job>)
        requires
            old(self).wf(),
        ensures
            final(self).wf(),
            final(self).jobs@.len() == old(self).jobs@.len(),
            forall|k: int|
                0 <= k < old(self).jobs@.len() && old(self).jobs@[k].id != id
                    ==> final(self).jobs@[k] == old(self).jobs@[k],
            forall|k: int|
                0 <= k < old(self).jobs@.len() && old(self).jobs@[k].id == id
                    ==> final(self).jobs@[k] == (Job { status: new_status, ..old(self).jobs@[k] }),
            (forall|k: int| 0 <= k < old(self).jobs@.len() ==> old(self).jobs@[k].id != id)
                ==> *final(self) == *old(self),
            final(self).summary_stats == old(self).summary_stats,
            r@ == final(self).jobs@,
    {
        match self.find_index_by_id(id) {
            Some(i) => {
                proof {
                    self.lemma_ids_unique();
                }
                let mut job = self.jobs[i].clone();
                job.status = new_status;
                self.jobs.set(i, job);
            },
            None => {},
        }
        clone_jobs(&self.jobs)
    }

    /// Set the source of the record with the given id; an unknown id is
    /// a silent no-op. Only that record's source changes. Returns the
    /// resulting list.
    pub fn update_source(&mut self, id: u32, new_source: JobSource) -> (r: Vec<Job>)
        requires
            old(self).wf(),
        ensures
            final(self).wf(),
            final(self).jobs@.len() == old(self).jobs@.len(),
            forall|k: int|
                0 <= k < old(self).jobs@.len() && old(self).jobs@[k].id != id
                    ==> final(self).jobs@[k] == old(self).jobs@[k],
            forall|k: int|
                0 <= k < old(self).jobs@.len() && old(self).jobs@[k].id == id
                    ==> final(self).jobs@[k] == (Job {
                        source: Some(new_source),
                        ..old(self).jobs@[k]
                    }),
            (forall|k: int| 0 <= k < old(self).jobs@.len() ==> old(self).jobs@[k].id != id)
                ==> *final(self) == *old(self),
            final(self).summary_stats == old(self).summary_stats,
            r@ == final(self).jobs@,
    {
        match self.find_index_by_id(id) {
            Some(i) => {
                proof {
                    self.lemma_ids_unique();
                }
                let mut job = self.jobs[i].clone();
                job.source = Some(new_source);
                self.jobs.set(i, job);
            },
            None => {},
        }
        clone_jobs(&self.jobs)
    }

    /// Set the company of the record with the given id; an unknown id
    /// is a silent no-op. Only that record's company changes. Returns
    /// the resulting list.
    pub fn update_company(&mut self, id: u32, new_company: String) -> (r: Vec<Job>)
        requires
            old(self).wf(),
        ensures
            final(self).wf(),
            final(self).jobs@.len() == old(self).jobs@.len(),
            forall|k: int|
                0 <= k < old(self).jobs@.len() && old(self).jobs@[k].id != id
                    ==> final(self).jobs@[k] == old(self).jobs@[k],
            forall|k: int|
                0 <= k < old(self).jobs@.len() && old(self).jobs@[k].id == id
                    ==> final(self).jobs@[k] == (Job { company: new_company, ..old(self).jobs@[k] }),
            (forall|k: int| 0 <= k < old(self).jobs@.len() ==> old(self).jobs@[k].id != id)
                ==> *final(self) == *old(self),
            final(self).summary_stats == old(self).summary_stats,
            r@ == final(self).jobs@,
    {
        match self.find_index_by_id(id) {
            Some(i) => {
                proof {
                    self.lemma_ids_unique();
                }
                let mut job = self.jobs[i].clone();
                job.company = new_company;
                self.jobs.set(i, job);
            },
            None => {},
        }
        clone_jobs(&self.jobs)
    }

    /// Set the timestamp of the record with the given id; an unknown id
    /// is a silent no-op. Only that record's timestamp changes. Returns
    /// the resulting list.
    pub fn update_timestamp(&mut self, id: u32, new_timestamp: u64) -> (r: Vec<Job>)
        requires
            old(self).wf(),
        ensures
            final(self).wf(),
            final(self).jobs@.len() == old(self).jobs@.len(),
            forall|k: int|
                0 <= k < old(self).jobs@.len() && old(self).jobs@[k].id != id
                    ==> final(self).jobs@[k] == old(self).jobs@[k],
            forall|k: int|
                0 <= k < old(self).jobs@.len() && old(self).jobs@[k].id == id
                    ==> final(self).jobs@[k] == (Job {
                        timestamp: new_timestamp,
                        ..old(self).jobs@[k]
                    }),
            (forall|k: int| 0 <= k < old(self).jobs@.len() ==> old(self).jobs@[k].id != id)
                ==> *final(self) == *old(self),
            final(self).summary_stats == old(self).summary_stats,
            r@ == final(self).jobs@,
    {
        match self.find_index_by_id(id) {
            Some(i) => {
                proof {
                    self.lemma_ids_unique();
                }
                let mut job = self.jobs[i].clone();
                job.timestamp = new_timestamp;
                self.jobs.set(i, job);
            },
            None => {},
        }
        clone_jobs(&self.jobs)
    }
}

impl Default for JobStore {
    /// An empty store: no records and a zero summary.
    fn default() -> (r: Self)
        ensures
            r.jobs@.len() == 0,
            r.summary_stats == (SummaryCounts {
                total: 0,
                rejected: 0,
                ghosted: 0,
                applied: 0,
                interviews: 0,
                offers: 0,
            }),
            r.wf(),
    {
        JobStore {
            jobs: Vec::new(),
            summary_stats: SummaryCounts {
                total: 0,
                rejected: 0,
                ghosted: 0,
                applied: 0,
                interviews: 0,
                offers: 0,
            },
        }
    }
}

} // verus!
