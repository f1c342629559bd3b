//! Event counters.
//!
//! The library only counts; publishing the counts is left to the program
//! around it. A counter that has reached `u64::MAX` stays there.

use crate::text::str_eq;
use vstd::prelude::*;
use vstd::string::*;

verus! {

/// How often something happened, by label.
#[derive(Debug)]
pub struct LabelCount {
    pub label: String,
    pub count: u64,
}

/// The gateway's counters.
#[derive(Debug)]
pub struct Metrics {
    pub oauth_logins_success: u64,
    pub oauth_logins_failure: u64,
    pub token_refreshes_success: u64,
    pub token_refreshes_failure: u64,
    /// Rate-limit rejections by endpoint. Where an endpoint is listed more
    /// than once, its last entry counts.
    pub rate_limit_exceeded: Vec<LabelCount>,
}

/// `n + 1`, or `u64::MAX` where that does not fit.
pub open spec fn bumped(n: u64) -> u64 {
    if n < u64::MAX {
        (n + 1) as u64
    } else {
        n
    }
}

/// The count recorded for `label` in the first `upto` entries: that of the
/// last entry with this label, 0 if there is none.
pub open spec fn tally(entries: Seq<LabelCount>, label: Seq<char>, upto: int) -> u64
    decreases upto,
{
    if upto <= 0 || upto > entries.len() {
        0
    } else if entries[upto - 1].label@ == label {
        entries[upto - 1].count
    } else {
        tally(entries, label, upto - 1)
    }
}

impl Metrics {
    /// How often the rate limit was exceeded on `endpoint`.
    pub open spec fn exceeded(&self, endpoint: Seq<char>) -> u64 {
        tally(self.rate_limit_exceeded@, endpoint, self.rate_limit_exceeded@.len() as int)
    }

    /// How often the rate limit was exceeded on `endpoint`.
    pub fn rate_limit_exceeded_count(&self, endpoint: &str) -> (r: u64)
        ensures
            r == self.exceeded(endpoint@),
    {
        let mut i: usize = self.rate_limit_exceeded.len();
        while i > 0
            invariant
                i <= self.rate_limit_exceeded.len(),
                self.exceeded(endpoint@) == tally(self.rate_limit_exceeded@, endpoint@, i as int),
            decreases i,
        {
            if str_eq(self.rate_limit_exceeded[i - 1].label.as_str(), endpoint) {
                return self.rate_limit_exceeded[i - 1].count;
            }
            i -= 1;
        }
        0
    }
}

proof fn tally_absent(entries: Seq<LabelCount>, label: Seq<char>, upto: int)
    requires
        0 <= upto <= entries.len(),
        forall|j: int| 0 <= j < upto ==> entries[j].label@ != label,
    ensures
        tally(entries, label, upto) == 0,
    decreases upto,
{
    if upto > 0 {
        tally_absent(entries, label, upto - 1);
    }
}

proof fn tally_same_prefix(a: Seq<LabelCount>, b: Seq<LabelCount>, label: Seq<char>, upto: int)
    requires
        0 <= upto <= a.len(),
        upto <= b.len(),
        forall|j: int| 0 <= j < upto ==> a[j] == b[j],
    ensures
        tally(a, label, upto) == tally(b, label, upto),
    decreases upto,
{
    if upto > 0 {
        tally_same_prefix(a, b, label, upto - 1);
    }
}

proof fn tally_after_update(
    a: Seq<LabelCount>,
    b: Seq<LabelCount>,
    at: int,
    label: Seq<char>,
    upto: int,
)
    requires
        0 <= at < a.len(),
        a.len() == b.len(),
        0 <= upto <= a.len(),
        forall|j: int| at < j < a.len() ==> a[j].label@ != a[at].label@,
        b[at].label@ == a[at].label@,
        forall|j: int| 0 <= j < a.len() && j != at ==> a[j] == b[j],
    ensures
        tally(b, label, upto) == if label == a[at].label@ && at < upto {
            b[at].count
        } else {
            tally(a, label, upto)
        },
    decreases upto,
{
    if upto > 0 {
        tally_after_update(a, b, at, label, upto - 1);
    }
}

/// Counters that have counted nothing yet.
pub fn register_metrics() -> (m: Metrics)
    ensures
        m.oauth_logins_success == 0,
        m.oauth_logins_failure == 0,
        m.token_refreshes_success == 0,
        m.token_refreshes_failure == 0,
        m.rate_limit_exceeded@.len() == 0,
        forall|endpoint: Seq<char>| m.exceeded(endpoint) == 0,
{
    Metrics {
        oauth_logins_success: 0,
        oauth_logins_failure: 0,
        token_refreshes_success: 0,
        token_refreshes_failure: 0,
        rate_limit_exceeded: Vec::new(),
    }
}

fn bump(n: u64) -> (r: u64)
    ensures
        r == bumped(n),
{
    if n < u64::MAX {
        n + 1
    } else {
        n
    }
}

/// Counts one login attempt, as a success or as a failure.
pub fn record_oauth_login(metrics: &mut Metrics, success: bool)
    ensures
        final(metrics).oauth_logins_success == if success {
            bumped(old(metrics).oauth_logins_success)
        } else {
            old(metrics).oauth_logins_success
        },
        final(metrics).oauth_logins_failure == if success {
            old(metrics).oauth_logins_failure
        } else {
            bumped(old(metrics).oauth_logins_failure)
        },
        final(metrics).token_refreshes_success == old(metrics).token_refreshes_success,
        final(metrics).token_refreshes_failure == old(metrics).token_refreshes_failure,
        final(metrics).rate_limit_exceeded == old(metrics).rate_limit_exceeded,
{
    if success {
        metrics.oauth_logins_success = bump(metrics.oauth_logins_success);
    } else {
        metrics.oauth_logins_failure = bump(metrics.oauth_logins_failure);
    }
}

/// Counts one token refresh, as a success or as a failure.
pub fn record_token_refresh(metrics: &mut Metrics, success: bool)
    ensures
        final(metrics).token_refreshes_success == if success {
            bumped(old(metrics).token_refreshes_success)
        } else {
            old(metrics).token_refreshes_success
        },
        final(metrics).token_refreshes_failure == if success {
            old(metrics).token_refreshes_failure
        } else {
            bumped(old(metrics).token_refreshes_failure)
        },
        final(metrics).oauth_logins_success == old(metrics).oauth_logins_success,
        final(metrics).oauth_logins_failure == old(metrics).oauth_logins_failure,
        final(metrics).rate_limit_exceeded == old(metrics).rate_limit_exceeded,
{
    if success {
        metrics.token_refreshes_success = bump(metrics.token_refreshes_success);
    } else {
        metrics.token_refreshes_failure = bump(metrics.token_refreshes_failure);
    }
}

/// Counts one request that was turned away by the rate limit on `endpoint`.
pub fn record_rate_limit_exceeded(metrics: &mut Metrics, endpoint: &str)
    ensures
        final(metrics).exceeded(endpoint@) == bumped(old(metrics).exceeded(endpoint@)),
        forall|other: Seq<char>|
            other != endpoint@ ==> final(metrics).exceeded(other) == old(metrics).exceeded(other),
        final(metrics).oauth_logins_success == old(metrics).oauth_logins_success,
        final(metrics).oauth_logins_failure == old(metrics).oauth_logins_failure,
        final(metrics).token_refreshes_success == old(metrics).token_refreshes_success,
        final(metrics).token_refreshes_failure == old(metrics).token_refreshes_failure,
{
    let ghost before = metrics.rate_limit_exceeded@;
    let n: usize = metrics.rate_limit_exceeded.len();
    match position(&metrics.rate_limit_exceeded, endpoint) {
        Some(i) => {
            let entry = LabelCount {
                label: String::from_str(endpoint),
                count: bump(metrics.rate_limit_exceeded[i].count),
            };
            metrics.rate_limit_exceeded.set(i, entry);
            proof {
                let after = metrics.rate_limit_exceeded@;
                assert forall|label: Seq<char>|
                    tally(after, label, n as int) == if label == endpoint@ {
                        after[i as int].count
                    } else {
                        tally(before, label, n as int)
                    } by {
                    tally_after_update(before, after, i as int, label, n as int);
                }
                tally_after_update(before, before, i as int, endpoint@, n as int);
            }
        },
        None => {
            proof {
                tally_absent(before, endpoint@, n as int);
            }
            metrics.rate_limit_exceeded.push(
                LabelCount { label: String::from_str(endpoint), count: 1 },
            );
            proof {
                let after = metrics.rate_limit_exceeded@;
                assert forall|other: Seq<char>| other != endpoint@ implies tally(
                    after,
                    other,
                    after.len() as int,
                ) == tally(before, other, n as int) by {
                    tally_same_prefix(after, before, other, n as int);
                }
            }
        },
    }
}

/// The index of the last entry labelled `label`, if there is one.
fn position(entries: &Vec<LabelCount>, label: &str) -> (r: Option<usize>)
    ensures
        match r {
            Some(i) => i < entries.len() && entries[i as int].label@ == label@ && forall|j: int|
                i < j < entries.len() ==> entries[j].label@ != label@,
            None => forall|j: int| 0 <= j < entries.len() ==> entries[j].label@ != label@,
        },
{
    let mut i: usize = entries.len();
    while i > 0
        invariant
            i <= entries.len(),
            forall|j: int| i <= j < entries.len() ==> entries[j].label@ != label@,
        decreases i,
    {
        if str_eq(entries[i - 1].label.as_str(), label) {
            return Some(i - 1);
        }
        i -= 1;
    }
    None
}

} // verus!
