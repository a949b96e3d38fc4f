//! Rating retrieval decisions.

use instance_directory::rating::{
    initial_delay_bounds, observatory_url, rating_to_percent, response_too_large, RatingAction,
    RatingEvent, RatingPoll, OBSERVATORY_API,
};

#[test]
fn grades_map_to_percentages() {
    let table = [
        ("A+", 97u8),
        ("A", 93),
        ("A-", 90),
        ("B+", 87),
        ("B", 83),
        ("B-", 80),
        ("C+", 77),
        ("C", 73),
        ("C-", 70),
        ("D+", 67),
        ("D", 63),
        ("D-", 60),
        ("F", 50),
        ("-", 0),
        ("Z", 0),
        ("", 0),
    ];
    for (grade, percent) in table {
        assert_eq!(rating_to_percent(grade), percent);
    }
}

#[test]
fn scan_url_appends_the_host() {
    assert_eq!(
        observatory_url("privatebin.net"),
        format!("{OBSERVATORY_API}privatebin.net")
    );
}

#[test]
fn oversized_responses_are_refused() {
    assert!(!response_too_large(10239));
    assert!(response_too_large(10240));
    assert!(response_too_large(1 << 32));
}

#[test]
fn initial_delay_is_jittered_between_bounds() {
    assert_eq!(initial_delay_bounds(), (500, 3000));
}

#[test]
fn completed_scan_is_accepted() {
    let mut poll = RatingPoll::start();
    let action = poll.step(&RatingEvent::ApiReport {
        error: None,
        grade: Some("A+".to_string()),
        status_code: Some(200),
    });
    match action {
        RatingAction::Accept { scan } => {
            assert_eq!(scan.scanner, "mozilla_observatory");
            assert_eq!(scan.rating, "A+");
            assert_eq!(scan.percent, 97);
            assert_eq!(scan.instance_id, 0);
        }
        _ => panic!("expected the grade to be accepted"),
    }
}

#[test]
fn unknown_error_report_retries_slowly() {
    let mut poll = RatingPoll::start();
    let action = poll.step(&RatingEvent::ApiReport {
        error: Some("error-unknown".to_string()),
        grade: None,
        status_code: None,
    });
    assert!(matches!(
        action,
        RatingAction::Retry { min_delay_ms: 2000, max_delay_ms: 5000 }
    ));
}

#[test]
fn server_error_retries_then_runs_out() {
    let mut poll = RatingPoll::start();
    let mut retries = 0;
    loop {
        if !poll.may_attempt() {
            break;
        }
        match poll.step(&RatingEvent::HttpStatus { status: 500 }) {
            RatingAction::Retry { .. } => retries += 1,
            RatingAction::GiveUp { scan } => {
                assert_eq!(scan.rating, "-");
                assert_eq!(scan.percent, 0);
                break;
            }
            RatingAction::Accept { .. } => panic!("no grade was reported"),
        }
    }
    assert_eq!(retries, 4);
    assert!(!poll.may_attempt());
}

#[test]
fn other_failures_give_up_at_once() {
    let give_up_events = [
        RatingEvent::RequestFailed,
        RatingEvent::HttpStatus { status: 403 },
        RatingEvent::ResponseTooLarge,
        RatingEvent::UnparsableBody,
        RatingEvent::ApiReport {
            error: Some("error-rescan-attempt-too-soon".to_string()),
            grade: None,
            status_code: None,
        },
        // a grade arriving with an unfinished scan status is not taken
        RatingEvent::ApiReport {
            error: None,
            grade: Some("B".to_string()),
            status_code: Some(102),
        },
        RatingEvent::ApiReport {
            error: None,
            grade: None,
            status_code: Some(200),
        },
    ];
    for event in give_up_events {
        let mut poll = RatingPoll::start();
        match poll.step(&event) {
            RatingAction::GiveUp { scan } => assert_eq!(scan.rating, "-"),
            _ => panic!("expected the poll to give up"),
        }
    }
}
