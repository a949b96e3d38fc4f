//! Reconciliation rules of the two periodic sweeps.
//!
//! The sweeps fan one probe out per instance and fan the results back
//! in; the callers perform the probes and the repository writes, while
//! the decisions — what counts as up, which differences stage an
//! update, when a rating is re-fetched or staged, which failures remove
//! an instance, and how far back liveness history is kept — are made
//! here.

use vstd::prelude::*;

verus! {

use crate::models::Instance;
use crate::models::InstanceNew;
use crate::models::CheckNew;
use crate::models::ScanNew;
use crate::errors::ValidationError;

/// Seconds between two runs of a periodic sweep.
pub const CRON_INTERVAL: u64 = 900;

/// How many liveness samples are kept per instance.
pub const CHECKS_TO_STORE: u64 = 100;

/// An instance with this many stored failures is removed.
pub const MAX_FAILURES: u64 = 90;

/// Seconds to wait before re-polling a rating that came back as the
/// sentinel.
pub const RATING_REPOLL_GRACE: u64 = 5;

/// What a liveness probe of one instance observed.
pub enum LivenessOutcome {
    /// The request failed or timed out.
    Unreachable,
    /// The instance answered with this status code.
    Answered { status: u16 },
}

/// An instance is up exactly when it answers with status 200.
pub open spec fn spec_is_up(o: LivenessOutcome) -> bool {
    match o {
        LivenessOutcome::Unreachable => false,
        LivenessOutcome::Answered { status } => status == 200,
    }
}

/// Classify one liveness probe outcome.
pub fn is_up(o: &LivenessOutcome) -> (r: bool)
    ensures
        r == spec_is_up(*o),
{
    match o {
        LivenessOutcome::Unreachable => false,
        LivenessOutcome::Answered { status } => *status == 200,
    }
}

/// Build the batch of liveness rows for one sweep, one row per probed
/// instance, in the order the results came in.
pub fn liveness_checks(results: &Vec<(i32, LivenessOutcome)>) -> (r: Vec<CheckNew>)
    ensures
        r@.len() == results@.len(),
        forall|i: int|
            0 <= i < r@.len() ==> (#[trigger] r@[i]).instance_id == results@[i].0 && r@[i].up
                == spec_is_up(results@[i].1),
{
    let mut rows: Vec<CheckNew> = Vec::new();
    let mut i: usize = 0;
    while i < results.len()
        invariant
            i <= results@.len(),
            rows@.len() == i,
            forall|j: int|
                0 <= j < i ==> (#[trigger] rows@[j]).instance_id == results@[j].0 && rows@[j].up
                    == spec_is_up(results@[j].1),
        decreases results@.len() - i,
    {
        let up = is_up(&results[i].1);
        let ghost prev = rows@;
        rows.push(CheckNew { up, instance_id: results[i].0 });
        proof {
            assert forall|j: int|
                0 <= j < i + 1 implies (#[trigger] rows@[j]).instance_id == results@[j].0
                && rows@[j].up == spec_is_up(results@[j].1) by {
                if j < i {
                    assert(rows@[j] == prev[j]);
                } else {
                    assert(rows@[j] == (CheckNew { up, instance_id: results@[i as int].0 }));
                }
            }
        }
        i += 1;
    }
    rows
}

/// The age cutoff for stored liveness samples: everything older than
/// the latest `CHECKS_TO_STORE` sweep intervals is dropped.
pub fn check_cutoff(now: u64) -> (r: u64)
    requires
        now >= (CHECKS_TO_STORE - 1) * CRON_INTERVAL,
    ensures
        r == now - (CHECKS_TO_STORE - 1) * CRON_INTERVAL,
{
    now - (CHECKS_TO_STORE - 1) * CRON_INTERVAL
}

/// Whether a stored failure count removes an instance.
pub fn should_prune(failures: u64) -> (r: bool)
    ensures
        r == (failures >= MAX_FAILURES),
{
    failures >= MAX_FAILURES
}

/// A re-validation failure removes the instance at once exactly when
/// the host now forbids indexing or no longer shows the service's
/// markers; mere unreachability does not.
pub open spec fn spec_removes_instance(e: ValidationError) -> bool {
    e is NotAllowed || e is NotThisService
}

/// Whether a re-validation failure removes the instance at once.
pub fn removes_instance(e: &ValidationError) -> (r: bool)
    ensures
        r == spec_removes_instance(*e),
{
    match e {
        ValidationError::NotAllowed { .. } => true,
        ValidationError::NotThisService { .. } => true,
        _ => false,
    }
}

/// The observed fields compared between a stored instance and a fresh
/// validation of the same URL.
pub open spec fn spec_instance_differs(stored: Instance, fresh: InstanceNew) -> bool {
    stored.version@ != fresh.version@ || stored.https != fresh.https || stored.https_redirect
        != fresh.https_redirect || stored.csp_header != fresh.csp_header || stored.attachments
        != fresh.attachments || stored.country_id@ != fresh.country_id@
}

/// Whether a fresh validation stages an instance update: any of the
/// observed fields changed.
pub fn instance_differs(stored: &Instance, fresh: &InstanceNew) -> (r: bool)
    ensures
        r == spec_instance_differs(*stored, *fresh),
{
    !crate::text::str_equal(stored.version.as_str(), fresh.version.as_str()) || stored.https
        != fresh.https || stored.https_redirect != fresh.https_redirect || stored.csp_header
        != fresh.csp_header || stored.attachments != fresh.attachments || !crate::text::str_equal(
        stored.country_id.as_str(),
        fresh.country_id.as_str(),
    )
}

/// Whether the rating that came back from validation warrants one more
/// poll after the grace period: it is still the sentinel.
pub fn rating_unresolved(scan: &ScanNew) -> (r: bool)
    ensures
        r == (scan.rating@ == "-"@),
{
    crate::text::str_equal(scan.rating.as_str(), "-")
}

/// Whether a freshly obtained rating stages a scan update: a real grade
/// was obtained and it differs from the stored one.
pub fn should_stage_rating(fresh: &ScanNew, stored_rating: &str) -> (r: bool)
    ensures
        r == (fresh.rating@ != "-"@ && fresh.rating@ != stored_rating@),
{
    !crate::text::str_equal(fresh.rating.as_str(), "-") && !crate::text::str_equal(
        fresh.rating.as_str(),
        stored_rating,
    )
}

} // verus!
