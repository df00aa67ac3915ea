//! Case-insensitive substring filtering of records.
use vstd::prelude::*;

use crate::Job;
use crate::job_status::status_text;
use vstd::string::StrSliceExecFns;

verus! {

/// What `str::to_lowercase` returns for a string with these characters:
/// its lowercase folding, a function of the characters alone.
pub uninterp spec fn lower_of(s: Seq<char>) -> Seq<char>;

/// Relies on str::to_lowercase: the result is the lowercase folding of
/// the input, a function of its characters alone; an empty string stays
/// empty.
#[verifier::external_body]
pub(crate) fn to_lowercase_string(s: &str) -> (r: String)
    ensures
        r@ == lower_of(s@),
        s@.len() == 0 ==> r@.len() == 0,
{
    s.to_lowercase()
}

/// Whether `needle` occurs in `hay` as a contiguous run of characters.
pub open spec fn contains_substring(hay: Seq<char>, needle: Seq<char>) -> bool {
    exists|i: int|
        0 <= i && i + needle.len() <= hay.len() && #[trigger] hay.subrange(i, i + needle.len())
            == needle
}

/// Whether `needle` starts at position `i` of `hay`.
fn match_at(hay: &str, needle: &str, i: usize) -> (r: bool)
    requires
        hay@.len() <= usize::MAX,
        i + needle@.len() <= hay@.len(),
    ensures
        r == (hay@.subrange(i as int, i + needle@.len()) == needle@),
{
    let m = needle.unicode_len();
    let mut j: usize = 0;
    while j < m
        invariant
            j <= m,
            m == needle@.len(),
            i + m <= hay@.len() <= usize::MAX,
            forall|j2: int| 0 <= j2 < j ==> hay@[i + j2] == needle@[j2],
        decreases m - j,
    {
        if hay.get_char(i + j) != needle.get_char(j) {
            proof {
                assert(hay@.subrange(i as int, i + m as int)[j as int] == hay@[i + j]);
            }
            return false;
        }
        j += 1;
    }
    proof {
        assert(hay@.subrange(i as int, i + m as int) =~= needle@);
    }
    true
}

/// Whether `needle` occurs anywhere in `hay`, scanning left to right.
pub fn str_contains(hay: &str, needle: &str) -> (r: bool)
    ensures
        r == contains_substring(hay@, needle@),
{
    let n = hay.unicode_len();
    let m = needle.unicode_len();
    if m > n {
        return false;
    }
    if m == 0 {
        proof {
            assert(hay@.subrange(0, 0 + needle@.len() as int) =~= needle@);
        }
        return true;
    }
    let mut i: usize = 0;
    while i <= n - m
        invariant
            1 <= m <= n,
            n == hay@.len(),
            m == needle@.len(),
            i <= n - m + 1,
            forall|i2: int|
                0 <= i2 < i ==> #[trigger] hay@.subrange(i2, i2 + needle@.len()) != needle@,
        decreases n - m + 1 - i,
    {
        if match_at(hay, needle, i) {
            return true;
        }
        i += 1;
    }
    false
}

/// The location text of a record: its location, or empty if absent.
pub open spec fn location_text(j: Job) -> Seq<char> {
    match j.role_location {
        Some(l) => l@,
        None => ""@,
    }
}

/// Whether a record matches an already lowercase-folded query: an empty
/// query matches everything; otherwise the folded company, role, status
/// display text, or location must contain the query as a substring.
pub open spec fn job_matches(j: Job, q: Seq<char>) -> bool {
    ||| q.len() == 0
    ||| contains_substring(lower_of(j.company@), q)
    ||| contains_substring(lower_of(j.role@), q)
    ||| contains_substring(lower_of(status_text(j.status)), q)
    ||| contains_substring(lower_of(location_text(j)), q)
}

impl Job {
    /// Case-insensitive substring match across company, role, status
    /// display text, and location (taken as empty if absent). The query
    /// is lowercase-folded once; an empty query matches every record.
    pub fn matches(&self, query: &str) -> (r: bool)
        ensures
            r == job_matches(*self, lower_of(query@)),
            query@.len() == 0 ==> r,
    {
        let q = to_lowercase_string(query);
        if q.as_str().unicode_len() == 0 {
            return true;
        }
        let company_l = to_lowercase_string(self.company.as_str());
        if str_contains(company_l.as_str(), q.as_str()) {
            return true;
        }
        let role_l = to_lowercase_string(self.role.as_str());
        if str_contains(role_l.as_str(), q.as_str()) {
            return true;
        }
        let status_l = to_lowercase_string(self.status.display_text());
        if str_contains(status_l.as_str(), q.as_str()) {
            return true;
        }
        let location: &str = match &self.role_location {
            Some(l) => l.as_str(),
            None => "",
        };
        let location_l = to_lowercase_string(location);
        str_contains(location_l.as_str(), q.as_str())
    }
}

/// An empty query matches every record.
pub proof fn lemma_empty_query_matches(j: Job, q: Seq<char>)
    requires
        q.len() == 0,
    ensures
        job_matches(j, q),
{
}

/// Matching is case-insensitive: two queries with the same lowercase
/// folding match exactly the same records.
pub proof fn lemma_matches_case_insensitive(j: Job, q1: Seq<char>, q2: Seq<char>)
    requires
        lower_of(q1) == lower_of(q2),
    ensures
        job_matches(j, lower_of(q1)) == job_matches(j, lower_of(q2)),
{
}

} // verus!
