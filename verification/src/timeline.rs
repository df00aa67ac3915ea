//! Calendar-day bucketing of records for the stacked timeline chart,
//! and the inverse mapping from a quantized chart coordinate back to
//! the record whose segment covers it.
//!
//! A record at stack position `k` of day index `i` occupies the unit
//! segment from `k` to `k + 1` over x-coordinate `i`; that placement is
//! pure data, and `resolve` is its exact inverse.
use vstd::prelude::*;

use crate::Job;

verus! {

/// The number of whole days between the Unix epoch and this instant:
/// the calendar day of a timestamp in the canonical time zone.
pub open spec fn day_of(ts: u64) -> int {
    ts as int / 86400
}

/// The calendar day of a timestamp.
pub fn day_of_timestamp(ts: u64) -> (d: u64)
    ensures
        d as int == day_of(ts),
{
    ts / 86400
}

/// The earliest calendar day among the records (zero if there are
/// none).
pub open spec fn min_day(jobs: Seq<Job>) -> int
    decreases jobs.len(),
{
    if jobs.len() == 0 {
        0
    } else if jobs.len() == 1 {
        day_of(jobs[0].timestamp)
    } else {
        let rest = min_day(jobs.drop_last());
        if day_of(jobs.last().timestamp) < rest {
            day_of(jobs.last().timestamp)
        } else {
            rest
        }
    }
}

/// The earliest calendar day is no later than any record's day.
pub proof fn lemma_min_day_le(jobs: Seq<Job>, i: int)
    requires
        0 <= i < jobs.len(),
    ensures
        min_day(jobs) <= day_of(jobs[i].timestamp),
    decreases jobs.len(),
{
    if jobs.len() > 1 && i < jobs.len() - 1 {
        lemma_min_day_le(jobs.drop_last(), i);
    }
}

/// The records whose timestamp falls on day `d`, in the stable
/// iteration order of the source list: the stacking order for
/// rendering.
pub open spec fn filter_day(jobs: Seq<Job>, d: int) -> Seq<Job>
    decreases jobs.len(),
{
    if jobs.len() == 0 {
        Seq::empty()
    } else {
        let rest = filter_day(jobs.drop_last(), d);
        if day_of(jobs.last().timestamp) == d {
            rest.push(jobs.last())
        } else {
            rest
        }
    }
}

/// The first day shown on the chart: the earliest record's day, or
/// today when there are no records.
pub open spec fn start_day_of(jobs: Seq<Job>, now_ts: u64) -> int {
    if jobs.len() == 0 {
        day_of(now_ts)
    } else {
        min_day(jobs)
    }
}

/// How many days the dense day sequence holds: every day from the
/// start day through today inclusive, or none when the start day lies
/// after today.
pub open spec fn num_days_of(jobs: Seq<Job>, now_ts: u64) -> int {
    if start_day_of(jobs, now_ts) <= day_of(now_ts) {
        day_of(now_ts) - start_day_of(jobs, now_ts) + 1
    } else {
        0
    }
}

/// The dense, gap-filled day range and one bucket of records per day.
/// Day index `i` stands for calendar day `start_day + i`.
pub struct TimelineBuckets {
    pub start_day: u64,
    pub buckets: Vec<Vec<Job>>,
}

impl TimelineBuckets {
    /// This value is exactly the bucketing of `jobs` as of `now_ts`:
    /// the dense day range runs from the earliest record's day (or
    /// today, if no records) through today, a day with no records
    /// holding an empty bucket rather than being skipped, and each
    /// day's bucket holds exactly the records of that day in source
    /// order.
    pub open spec fn wf_for(self, jobs: Seq<Job>, now_ts: u64) -> bool {
        &&& self.start_day as int == start_day_of(jobs, now_ts)
        &&& self.buckets@.len() == num_days_of(jobs, now_ts)
        &&& forall|i: int|
            0 <= i < self.buckets@.len() ==> #[trigger] self.buckets@[i]@ == filter_day(
                jobs,
                self.start_day + i,
            )
    }

    /// Inverse-map a quantized chart coordinate — the rounded pointer
    /// x as a day index, the floored pointer y as a stack index — to
    /// the record whose segment covers it, or nothing when either
    /// index lies outside the placed segments.
    pub fn resolve(&self, day_index: i64, stack_index: i64) -> (r: Option<Job>)
        ensures
            r == spec_resolve(*self, day_index as int, stack_index as int),
    {
        if day_index < 0 || stack_index < 0 {
            return None;
        }
        let x = day_index as u64;
        if x >= self.buckets.len() as u64 {
            return None;
        }
        let xi = x as usize;
        let bucket = &self.buckets[xi];
        let y = stack_index as u64;
        if y >= bucket.len() as u64 {
            return None;
        }
        let yi = y as usize;
        Some(bucket[yi].clone())
    }
}

/// What `resolve` returns: the record at stack position `y` of day
/// index `x`, when both indices are in range, and nothing otherwise.
pub open spec fn spec_resolve(b: TimelineBuckets, x: int, y: int) -> Option<Job> {
    if 0 <= x < b.buckets@.len() && 0 <= y < b.buckets@[x]@.len() {
        Some(b.buckets@[x]@[y])
    } else {
        None
    }
}

/// Group the records by calendar day into a dense, gap-filled range of
/// buckets running from the earliest record's day (or today when there
/// are no records) through today. Records of days after today fall
/// outside the range and appear in no bucket.
pub fn bucket_jobs(jobs: &Vec<Job>, now_ts: u64) -> (r: TimelineBuckets)
    ensures
        r.wf_for(jobs@, now_ts),
{
    let today = now_ts / 86400;
    let mut start: u64 = today;
    if jobs.len() > 0 {
        start = jobs[0].timestamp / 86400;
        proof {
            assert(jobs@.take(1)[0] == jobs@[0]);
        }
        let mut i: usize = 1;
        while i < jobs.len()
            invariant
                1 <= i <= jobs@.len(),
                start as int == min_day(jobs@.take(i as int)),
            decreases jobs@.len() - i,
        {
            proof {
                assert(jobs@.take(i + 1).drop_last() =~= jobs@.take(i as int));
                assert(jobs@.take(i + 1).last() == jobs@[i as int]);
            }
            let dk = jobs[i].timestamp / 86400;
            if dk < start {
                start = dk;
            }
            i += 1;
        }
        proof {
            assert(jobs@.take(jobs@.len() as int) =~= jobs@);
        }
    }
    let mut buckets: Vec<Vec<Job>> = Vec::new();
    let mut d: u64 = start;
    while d <= today
        invariant
            today as int == day_of(now_ts),
            start as int == start_day_of(jobs@, now_ts),
            start <= d,
            start <= today ==> d <= today + 1,
            start > today ==> d == start,
            buckets@.len() == d - start,
            forall|i: int|
                0 <= i < buckets@.len() ==> #[trigger] buckets@[i]@ == filter_day(
                    jobs@,
                    start + i,
                ),
        decreases today + 1 - d,
    {
        let mut bucket: Vec<Job> = Vec::new();
        let mut k: usize = 0;
        while k < jobs.len()
            invariant
                k <= jobs@.len(),
                bucket@ == filter_day(jobs@.take(k as int), d as int),
            decreases jobs@.len() - k,
        {
            proof {
                assert(jobs@.take(k + 1).drop_last() =~= jobs@.take(k as int));
                assert(jobs@.take(k + 1).last() == jobs@[k as int]);
            }
            if jobs[k].timestamp / 86400 == d {
                bucket.push(jobs[k].clone());
            }
            k += 1;
        }
        proof {
            assert(jobs@.take(jobs@.len() as int) =~= jobs@);
        }
        buckets.push(bucket);
        d += 1;
    }
    TimelineBuckets { start_day: start, buckets }
}

/// A record whose day equals `d` occurs in the bucket of day `d`.
proof fn lemma_filter_day_contains(jobs: Seq<Job>, d: int, i: int)
    requires
        0 <= i < jobs.len(),
        day_of(jobs[i].timestamp) == d,
    ensures
        filter_day(jobs, d).contains(jobs[i]),
    decreases jobs.len(),
{
    if i == jobs.len() - 1 {
        assert(filter_day(jobs, d).last() == jobs[i]);
    } else {
        lemma_filter_day_contains(jobs.drop_last(), d, i);
        let rest = filter_day(jobs.drop_last(), d);
        let k = choose|k: int| 0 <= k < rest.len() && rest[k] == jobs.drop_last()[i];
        assert(jobs.drop_last()[i] == jobs[i]);
        assert(filter_day(jobs, d)[k] == jobs[i]);
    }
}

/// No record is lost: every record dated no later than today falls
/// inside the dense day range and appears in the bucket of its own
/// calendar day.
pub proof fn lemma_record_is_placed(b: TimelineBuckets, jobs: Seq<Job>, now_ts: u64, i: int)
    requires
        b.wf_for(jobs, now_ts),
        0 <= i < jobs.len(),
        day_of(jobs[i].timestamp) <= day_of(now_ts),
    ensures
        0 <= day_of(jobs[i].timestamp) - b.start_day < b.buckets@.len(),
        b.buckets@[day_of(jobs[i].timestamp) - b.start_day]@.contains(jobs[i]),
{
    let d = day_of(jobs[i].timestamp);
    lemma_min_day_le(jobs, i);
    lemma_filter_day_contains(jobs, d, i);
    assert(b.buckets@[d - b.start_day]@ == filter_day(jobs, d));
}

/// Round trip: the record the bucketer placed at stack position `k` of
/// day index `i` is exactly what hit-testing the center of its unit
/// segment — x rounding to `i`, y flooring to `k` — resolves to.
pub proof fn lemma_resolve_round_trip(b: TimelineBuckets, i: int, k: int)
    requires
        0 <= i < b.buckets@.len(),
        0 <= k < b.buckets@[i]@.len(),
    ensures
        spec_resolve(b, i, k) == Some(b.buckets@[i]@[k]),
{
}

/// A coordinate outside every placed segment resolves to nothing.
pub proof fn lemma_resolve_out_of_range(b: TimelineBuckets, x: int, y: int)
    requires
        !(0 <= x < b.buckets@.len()) || !(0 <= y < b.buckets@[x]@.len()),
    ensures
        spec_resolve(b, x, y) is None,
{
}

} // verus!
