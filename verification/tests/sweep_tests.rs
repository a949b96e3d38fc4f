//! Sweep reconciliation decisions.

use instance_directory::models::{Instance, InstanceNew, InstanceVariant, ScanNew};
use instance_directory::sweep::{
    check_cutoff, instance_differs, is_up, rating_unresolved, should_prune, should_stage_rating,
    LivenessOutcome, CHECKS_TO_STORE, CRON_INTERVAL, MAX_FAILURES,
};

fn stored() -> Instance {
    Instance {
        id: 1,
        url: "https://privatebin.net".to_string(),
        version: "1.7.8".to_string(),
        https: true,
        https_redirect: true,
        country_id: "CH".to_string(),
        attachments: true,
        csp_header: true,
        uptime: 100,
        rating_mozilla_observatory: "A+".to_string(),
    }
}

fn fresh() -> InstanceNew {
    InstanceNew {
        id: None,
        url: "https://privatebin.net".to_string(),
        version: "1.7.8".to_string(),
        https: true,
        https_redirect: true,
        country_id: "CH".to_string(),
        attachments: true,
        csp_header: true,
        variant: InstanceVariant::PrivateBin,
    }
}

#[test]
fn unchanged_instances_stage_no_update() {
    assert!(!instance_differs(&stored(), &fresh()));
}

#[test]
fn each_observed_field_counts() {
    let mut f = fresh();
    f.version = "1.7.9".to_string();
    assert!(instance_differs(&stored(), &f));

    let mut f = fresh();
    f.https = false;
    assert!(instance_differs(&stored(), &f));

    let mut f = fresh();
    f.https_redirect = false;
    assert!(instance_differs(&stored(), &f));

    let mut f = fresh();
    f.csp_header = false;
    assert!(instance_differs(&stored(), &f));

    let mut f = fresh();
    f.attachments = false;
    assert!(instance_differs(&stored(), &f));

    let mut f = fresh();
    f.country_id = "DE".to_string();
    assert!(instance_differs(&stored(), &f));
}

#[test]
fn liveness_is_a_200_answer() {
    assert!(is_up(&LivenessOutcome::Answered { status: 200 }));
    assert!(!is_up(&LivenessOutcome::Answered { status: 301 }));
    assert!(!is_up(&LivenessOutcome::Answered { status: 503 }));
    assert!(!is_up(&LivenessOutcome::Unreachable));
}

#[test]
fn retention_cutoff_keeps_the_latest_window() {
    let now = 10_000_000;
    assert_eq!(
        check_cutoff(now),
        now - (CHECKS_TO_STORE - 1) * CRON_INTERVAL
    );
    assert_eq!(check_cutoff(now), now - 89_100);
}

#[test]
fn chronic_failures_prune_an_instance() {
    assert!(!should_prune(MAX_FAILURES - 1));
    assert!(should_prune(MAX_FAILURES));
    assert!(should_prune(MAX_FAILURES + 10));
}

#[test]
fn sentinel_ratings_are_re_polled() {
    assert!(rating_unresolved(&ScanNew::default()));
    assert!(!rating_unresolved(&ScanNew::new("mozilla_observatory", "B", 1)));
}

#[test]
fn rating_updates_stage_only_real_changes() {
    let fresh_scan = ScanNew::new("mozilla_observatory", "A", 1);
    assert!(should_stage_rating(&fresh_scan, "B"));
    assert!(!should_stage_rating(&fresh_scan, "A"));
    assert!(!should_stage_rating(&ScanNew::default(), "B"));
}
