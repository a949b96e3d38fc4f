//! Page-marker scanning and CSP compliance behavior.

use instance_directory::csp::{
    csp_compliant, remove_all, PrivateBinTemplate, CSP_1_4, CSP_RECOMMENDATION, POPUPS_TOKEN,
};
use instance_directory::properties::{find_jitsi_version, find_template, find_version, scan_page};
use instance_directory::reader::read_lines;

#[test]
fn version_marker_is_extracted() {
    assert_eq!(
        find_version("<script src=\"js/privatebin.js?1.7.8\"></script>"),
        Some("1.7.8".to_string())
    );
    assert_eq!(
        find_version("<script src=\"js/zerobin.js?0.20\"></script>"),
        Some("0.20".to_string())
    );
    assert_eq!(
        find_version("src=\"js/zerobin.js?Alpha%200.19\""),
        Some("0.19".to_string())
    );
    assert_eq!(find_version("js/privatebin.js?1.4.0"), Some("1.4.0".to_string()));
}

#[test]
fn version_marker_requires_the_pattern() {
    assert_eq!(find_version("no markers here"), None);
    assert_eq!(find_version("js/privatebin.js?"), None);
    assert_eq!(find_version("js/privatebin.js?1"), None);
    assert_eq!(find_version("js/privatebin.js?1."), None);
    assert_eq!(find_version("js/otherlib.js?1.2"), None);
}

#[test]
fn version_marker_leftmost_wins() {
    assert_eq!(
        find_version("js/privatebin.js?1.2.3 and js/zerobin.js?9.9"),
        Some("1.2.3".to_string())
    );
}

#[test]
fn template_marker_tells_the_generations_apart() {
    assert_eq!(
        find_template("href=\"css/bootstrap/common.css\""),
        Some(PrivateBinTemplate::Bootstrap3)
    );
    assert_eq!(
        find_template("href=\"css/bootstrap5/common.css\""),
        Some(PrivateBinTemplate::Bootstrap5)
    );
    assert_eq!(find_template("href=\"css/other/common.css\""), None);
    assert_eq!(find_template("css/bootstrap without slash"), None);
}

#[test]
fn jitsi_version_marker_is_extracted() {
    assert_eq!(
        find_jitsi_version("<script src=\"libs/lib-jitsi-meet.min.js?v=7001\"></script>"),
        Some("7001".to_string())
    );
    assert_eq!(
        find_jitsi_version("libs/lib-jitsi-meet.min.js?v=2.1"),
        Some("2.1".to_string())
    );
    assert_eq!(find_jitsi_version("libs/lib-jitsi-meet.min.js?v="), None);
    assert_eq!(find_jitsi_version("js/privatebin.js?1.7.8"), None);
}

#[test]
fn page_scan_collects_all_markers() {
    let body = b"<html>\n<link href=\"css/bootstrap5/main.css\">\n<div id=\"attachment\" class=\"hidden\"></div>\n<script src=\"js/privatebin.js?1.7.8\"></script>\n</html>\n"
        .to_vec();
    let lines = read_lines(&body);
    let scan = scan_page(&lines);
    assert_eq!(scan.version, Some("1.7.8".to_string()));
    assert!(scan.attachments);
    assert_eq!(scan.template, PrivateBinTemplate::Bootstrap5);

    // the attachment marker needs its surrounding spaces
    let body = b"<div id=\"attachment\"class=\"hidden\"></div>\n".to_vec();
    let scan = scan_page(&read_lines(&body));
    assert!(!scan.attachments);
    assert_eq!(scan.version, None);
    assert_eq!(scan.template, PrivateBinTemplate::Unknown);
}

#[test]
fn first_version_marker_of_the_page_wins() {
    let body = b"js/privatebin.js?1.1\njs/privatebin.js?1.2\n".to_vec();
    let scan = scan_page(&read_lines(&body));
    assert_eq!(scan.version, Some("1.1".to_string()));
}

#[test]
fn csp_exact_match_is_compliant() {
    assert!(csp_compliant(
        "1.7.8",
        PrivateBinTemplate::Bootstrap3,
        CSP_RECOMMENDATION
    ));
    assert!(csp_compliant("1.4.0", PrivateBinTemplate::Bootstrap3, CSP_1_4));
    assert!(!csp_compliant(
        "1.7.8",
        PrivateBinTemplate::Bootstrap3,
        "default-src 'none'"
    ));
    assert!(!csp_compliant("1.7.8", PrivateBinTemplate::Bootstrap3, ""));
}

#[test]
fn csp_popups_relaxation_is_for_the_older_template_only() {
    let relaxed = remove_all(CSP_RECOMMENDATION, POPUPS_TOKEN);
    assert!(!relaxed.contains(" allow-popups"));
    assert!(csp_compliant(
        "1.7.8",
        PrivateBinTemplate::Bootstrap3,
        relaxed.as_str()
    ));
    assert!(!csp_compliant(
        "1.7.8",
        PrivateBinTemplate::Bootstrap5,
        relaxed.as_str()
    ));
}

#[test]
fn csp_pre_release_versions_pass_with_any_policy() {
    assert!(csp_compliant(
        "0.20",
        PrivateBinTemplate::Unknown,
        "default-src 'none'"
    ));
    assert!(!csp_compliant("0.20", PrivateBinTemplate::Unknown, ""));
}

#[test]
fn token_removal_only_hits_the_token() {
    assert_eq!(remove_all("a allow-popups b", POPUPS_TOKEN), "a b");
    assert_eq!(remove_all("nothing here", POPUPS_TOKEN), "nothing here");
    assert_eq!(
        remove_all(" allow-popups allow-popups", POPUPS_TOKEN),
        ""
    );
}
