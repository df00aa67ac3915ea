//! Status summaries: a single pass recomputes one counter per status
//! and a running total, and the counters provably sum to the total.
use vstd::prelude::*;

use crate::{Job, JobStatus, SummaryCounts};

verus! {

/// How many records of a list carry the given status.
pub open spec fn count_status(jobs: Seq<Job>, s: JobStatus) -> nat
    decreases jobs.len(),
{
    if jobs.len() == 0 {
        0
    } else {
        count_status(jobs.drop_last(), s) + if jobs.last().status == s {
            1nat
        } else {
            0nat
        }
    }
}

impl SummaryCounts {
    /// The per-status counts sum to the total.
    pub open spec fn wf(self) -> bool {
        self.applied + self.interviews + self.offers + self.rejected + self.ghosted == self.total
    }

    /// This summary is exactly what a full recomputation over `jobs`
    /// yields: the total is the number of records and each counter is
    /// the number of records in that status.
    pub open spec fn summarizes(self, jobs: Seq<Job>) -> bool {
        &&& self.total == jobs.len()
        &&& self.applied == count_status(jobs, JobStatus::Applied)
        &&& self.interviews == count_status(jobs, JobStatus::Interview)
        &&& self.offers == count_status(jobs, JobStatus::Offer)
        &&& self.rejected == count_status(jobs, JobStatus::Rejected)
        &&& self.ghosted == count_status(jobs, JobStatus::Ghosted)
    }
}

impl Default for SummaryCounts {
    /// An empty summary: zero total and all counters zero.
    fn default() -> (r: Self)
        ensures
            r == (SummaryCounts { total: 0, rejected: 0, ghosted: 0, applied: 0, interviews: 0, offers: 0 }),
    {
        SummaryCounts { total: 0, rejected: 0, ghosted: 0, applied: 0, interviews: 0, offers: 0 }
    }
}

/// Recompute the summary counters from scratch in one pass over the
/// record list.
pub fn summarize(jobs: &Vec<Job>) -> (s: SummaryCounts)
    ensures
        s.summarizes(jobs@),
        s.wf(),
{
    let mut s = SummaryCounts { total: 0, rejected: 0, ghosted: 0, applied: 0, interviews: 0, offers: 0 };
    let mut i: usize = 0;
    while i < jobs.len()
        invariant
            i <= jobs@.len(),
            s.summarizes(jobs@.take(i as int)),
            s.wf(),
        decreases jobs@.len() - i,
    {
        proof {
            assert(jobs@.take(i + 1).drop_last() =~= jobs@.take(i as int));
            assert(jobs@.take(i + 1).last() == jobs@[i as int]);
        }
        s.total = s.total + 1;
        match jobs[i].status {
            JobStatus::Applied => {
                s.applied = s.applied + 1;
            },
            JobStatus::Interview => {
                s.interviews = s.interviews + 1;
            },
            JobStatus::Offer => {
                s.offers = s.offers + 1;
            },
            JobStatus::Rejected => {
                s.rejected = s.rejected + 1;
            },
            JobStatus::Ghosted => {
                s.ghosted = s.ghosted + 1;
            },
        }
        i = i + 1;
    }
    proof {
        assert(jobs@.take(jobs@.len() as int) =~= jobs@);
    }
    s
}

/// The per-status counts of any record list sum to its length, so a
/// freshly recomputed summary's counts sum to its total — for every
/// input, the empty list included.
pub proof fn lemma_status_counts_sum_to_total(jobs: Seq<Job>)
    ensures
        count_status(jobs, JobStatus::Applied) + count_status(jobs, JobStatus::Interview)
            + count_status(jobs, JobStatus::Offer) + count_status(jobs, JobStatus::Rejected)
            + count_status(jobs, JobStatus::Ghosted) == jobs.len(),
    decreases jobs.len(),
{
    if jobs.len() > 0 {
        lemma_status_counts_sum_to_total(jobs.drop_last());
    }
}

/// The whole-percent share of `part` among `total`, zero when the total
/// is zero rather than an undefined value.
fn rate_percent(part: usize, total: usize) -> (r: usize)
    requires
        part <= total,
    ensures
        total == 0 ==> r == 0,
        total > 0 ==> r == part * 100 / (total as int),
{
    if total == 0 {
        0
    } else {
        proof {
            assert(part * 100 <= total * 100) by (nonlinear_arith)
                requires part <= total;
            assert(part * 100 / (total as int) <= 100) by (nonlinear_arith)
                requires part <= total && total > 0;
        }
        let r = (part as u128) * 100 / (total as u128);
        r as usize
    }
}

impl SummaryCounts {
    /// The rejection rate as a whole percentage, zero when no records
    /// exist.
    pub fn rejection_rate_percent(&self) -> (r: usize)
        requires
            self.wf(),
        ensures
            self.total == 0 ==> r == 0,
            self.total > 0 ==> r == self.rejected * 100 / (self.total as int),
    {
        rate_percent(self.rejected, self.total)
    }

    /// The interview rate as a whole percentage, zero when no records
    /// exist.
    pub fn interview_rate_percent(&self) -> (r: usize)
        requires
            self.wf(),
        ensures
            self.total == 0 ==> r == 0,
            self.total > 0 ==> r == self.interviews * 100 / (self.total as int),
    {
        rate_percent(self.interviews, self.total)
    }
}

} // verus!
