//! Robots-compliance gate behavior.

use instance_directory::errors::ValidationError;
use instance_directory::reader::read_lines;
use instance_directory::robots::{robots_disallows, robots_gate, robots_url, RobotsFetch};

fn disallows(body: &[u8]) -> bool {
    robots_disallows(&read_lines(&body.to_vec()))
}

#[test]
fn disallow_all_for_bot_is_refused() {
    let body = b"User-agent: PrivateBinDirectoryBot\nDisallow: /\n";
    assert!(disallows(body));
}

#[test]
fn other_blocks_do_not_matter() {
    let body = b"User-agent: GoogleBot\nDisallow: /\n\nUser-agent: PrivateBinDirectoryBot\nDisallow: /\n\nUser-agent: *\nAllow: /\n";
    assert!(disallows(body));
}

#[test]
fn allowance_for_bot_passes() {
    let body = b"User-agent: PrivateBinDirectoryBot\nAllow: /\n";
    assert!(!disallows(body));
}

#[test]
fn directives_before_the_disallow_do_not_save_it() {
    let body = b"User-agent: PrivateBinDirectoryBot\nAllow: /private\nDisallow: /\n";
    assert!(disallows(body));
    let body = b"User-agent: PrivateBinDirectoryBot\nCrawl-delay: 10\nDisallow: /\n";
    assert!(disallows(body));
}

#[test]
fn grouped_user_agents_share_their_directives() {
    let body = b"User-agent: GoogleBot\nUser-agent: PrivateBinDirectoryBot\nDisallow: /\n";
    assert!(disallows(body));
}

#[test]
fn a_later_group_for_the_bot_counts() {
    let body = b"User-agent: PrivateBinDirectoryBot\nAllow: /\n\nUser-agent: PrivateBinDirectoryBot\nDisallow: /\n";
    assert!(disallows(body));
}

#[test]
fn another_agents_disallow_between_groups_passes() {
    let body = b"User-agent: GoogleBot\nDisallow: /\nUser-agent: PrivateBinDirectoryBot\nAllow: /\n";
    assert!(!disallows(body));
}

#[test]
fn disallow_for_other_agents_passes() {
    let body = b"User-agent: GoogleBot\nDisallow: /\n";
    assert!(!disallows(body));
}

#[test]
fn empty_robots_passes() {
    assert!(!disallows(b""));
}

#[test]
fn decode_failure_stops_the_scan() {
    let body = b"\xff\xfe\nUser-agent: PrivateBinDirectoryBot\nDisallow: /\n";
    assert!(!disallows(body));
}

#[test]
fn robots_url_forms() {
    assert_eq!(
        robots_url("https://x.example"),
        "https://x.example/robots.txt"
    );
    assert_eq!(
        robots_url("https://x.example/"),
        "https://x.example/robots.txt"
    );
}

#[test]
fn gate_refuses_only_a_disallowing_answer() {
    let url = "https://x.example".to_string();
    let disallow = b"User-agent: PrivateBinDirectoryBot\nDisallow: /\n".to_vec();

    let hit = robots_gate(
        &url,
        &RobotsFetch::Response {
            status: 200,
            body: Some(disallow.clone()),
        },
    );
    match hit {
        Err(ValidationError::NotAllowed { url: u }) => assert_eq!(u, url),
        _ => panic!("expected the robots gate to refuse"),
    }

    assert!(robots_gate(&url, &RobotsFetch::Unreachable).is_ok());
    assert!(robots_gate(
        &url,
        &RobotsFetch::Response {
            status: 404,
            body: Some(disallow.clone()),
        },
    )
    .is_ok());
    assert!(robots_gate(
        &url,
        &RobotsFetch::Response {
            status: 200,
            body: None,
        },
    )
    .is_ok());
    assert!(robots_gate(
        &url,
        &RobotsFetch::Response {
            status: 200,
            body: Some(b"User-agent: *\nDisallow:\n".to_vec()),
        },
    )
    .is_ok());
}
