//! End-to-end validation scenarios, fed with recorded probe outcomes.

use instance_directory::country::{country_from, country_query, CountryOutcome, CountryQuery};
use instance_directory::csp::CSP_RECOMMENDATION;
use instance_directory::errors::ValidationError;
use instance_directory::models::InstanceVariant;
use instance_directory::probe::{apply_http_probe, http_probe_url, ProbeOutcome};
use instance_directory::rating::rating_scan_url;
use instance_directory::robots::{robots_gate, RobotsFetch};
use instance_directory::sweep::{liveness_checks, removes_instance, LivenessOutcome};
use instance_directory::validator::{
    analyze_jitsi_page, analyze_page, assemble_jitsi, assemble_privatebin, begin_validation,
    PageFetch,
};
use instance_directory::models::ScanNew;

fn page_with_markers() -> Vec<u8> {
    let mut body = Vec::new();
    body.extend_from_slice(b"<html>\n");
    body.extend_from_slice(b"<link href=\"css/bootstrap/main.css\">\n");
    body.extend_from_slice(b"<div id=\"attachment\" class=\"hidden\"></div>\n");
    body.extend_from_slice(b"<script src=\"js/privatebin.js?1.7.8\"></script>\n");
    body.extend_from_slice(b"</html>\n");
    body
}

#[test]
fn validating_a_compliant_https_instance() {
    let raw = "https://privatebin.net".to_string();
    let url = begin_validation(&raw).unwrap();
    assert_eq!(url, "https://privatebin.net");
    assert_eq!(http_probe_url(&url), "http://privatebin.net");

    // the plain-HTTP probe answers with a redirect to HTTPS
    let findings = apply_http_probe(
        url.clone(),
        &ProbeOutcome::Response {
            status: 301,
            location: Some("https://privatebin.net".to_string()),
        },
    )
    .unwrap();
    assert!(findings.https);
    assert!(findings.https_redirect);
    assert_eq!(findings.url, "https://privatebin.net");

    // an unobjecting robots file
    robots_gate(
        &findings.url,
        &RobotsFetch::Response {
            status: 200,
            body: Some(b"User-agent: *\nDisallow:\n".to_vec()),
        },
    )
    .unwrap();

    // the root page shows all markers and the recommended policy
    let props = analyze_page(
        &findings.url,
        &PageFetch::Response {
            status: 200,
            csp_header: Some(CSP_RECOMMENDATION.to_string()),
            body: Some(page_with_markers()),
        },
    )
    .unwrap();
    assert_eq!(props.version, Some("1.7.8".to_string()));
    assert!(props.attachments);
    assert!(props.csp_header);

    // the host resolves and the database answers
    let query = country_query(findings.url.as_str());
    match &query {
        CountryQuery::ResolveDomain { host } => assert_eq!(host, "privatebin.net"),
        _ => panic!("expected a domain to resolve"),
    }
    let country = country_from(
        &findings.url,
        CountryOutcome::GeoLookup {
            iso_code: Some("CH".to_string()),
        },
    )
    .unwrap();
    assert_eq!(country, "CH");

    let candidate = assemble_privatebin(
        findings.url,
        findings.https,
        findings.https_redirect,
        props,
        country,
        ScanNew::new("mozilla_observatory", "A+", 0),
    )
    .unwrap();
    assert_eq!(candidate.instance.url, "https://privatebin.net");
    assert!(candidate.instance.https);
    assert!(candidate.instance.https_redirect);
    assert!(candidate.instance.csp_header);
    assert!(candidate.instance.attachments);
    assert_eq!(candidate.instance.country_id, "CH");
    assert_eq!(candidate.instance.variant, InstanceVariant::PrivateBin);
    assert_eq!(candidate.scans.len(), 1);
    assert_eq!(candidate.scans[0].rating, "A+");
}

#[test]
fn validating_a_legacy_plain_http_instance() {
    let raw = "http://zerobin-legacy.dssr.ch/".to_string();
    let url = begin_validation(&raw).unwrap();
    assert_eq!(url, "http://zerobin-legacy.dssr.ch");

    // answers plain HTTP, no redirect anywhere
    let findings = apply_http_probe(
        url,
        &ProbeOutcome::Response {
            status: 200,
            location: None,
        },
    )
    .unwrap();
    assert!(!findings.https);
    assert!(!findings.https_redirect);
    assert_eq!(findings.url, "http://zerobin-legacy.dssr.ch");

    let props = analyze_page(
        &findings.url,
        &PageFetch::Response {
            status: 200,
            csp_header: Some("default-src 'none'".to_string()),
            body: Some(b"<script src=\"js/zerobin.js?Alpha%200.20\"></script>\n".to_vec()),
        },
    )
    .unwrap();
    assert_eq!(props.version, Some("0.20".to_string()));
    assert!(!props.attachments);
    // pre-1.0 releases pass with any non-empty policy
    assert!(props.csp_header);
}

#[test]
fn https_only_hosts_count_as_enforcing() {
    let url = begin_validation(&"https://tls-only.example".to_string()).unwrap();
    let findings =
        apply_http_probe(url, &ProbeOutcome::Unreachable { timed_out: false }).unwrap();
    assert!(findings.https);
    assert!(findings.https_redirect);
}

#[test]
fn unreachable_plain_http_hosts_are_fatal() {
    let url = begin_validation(&"http://dead.example".to_string()).unwrap();
    let err = apply_http_probe(url, &ProbeOutcome::Unreachable { timed_out: true }).unwrap_err();
    match err {
        ValidationError::Unresponsive { url, timed_out } => {
            assert_eq!(url, "http://dead.example");
            assert!(timed_out);
        }
        _ => panic!("expected an unresponsive failure"),
    }
}

#[test]
fn malformed_input_is_rejected_up_front() {
    let err = begin_validation(&"privatebin.info".to_string()).unwrap_err();
    match &err {
        ValidationError::InvalidUrl { url } => assert_eq!(url, "privatebin.info"),
        _ => panic!("expected an invalid-url failure"),
    }
    assert_eq!(err.message(), "Not a valid URL: privatebin.info");
    assert!(!removes_instance(&err));
}

#[test]
fn degenerate_paths_are_rejected_up_front() {
    // an all-slash path loses the scheme under canonicalization, so it
    // is rejected rather than handed to the probes
    let err = begin_validation(&"http:///".to_string()).unwrap_err();
    match &err {
        ValidationError::InvalidUrl { url } => assert_eq!(url, "http:///"),
        _ => panic!("expected an invalid-url failure"),
    }
}

#[test]
fn a_disallowing_robots_file_is_terminal() {
    let url = "http://zerobin-test.dssr.ch".to_string();
    let err = robots_gate(
        &url,
        &RobotsFetch::Response {
            status: 200,
            body: Some(b"User-agent: PrivateBinDirectoryBot\nDisallow: /\n".to_vec()),
        },
    )
    .unwrap_err();
    assert_eq!(
        err.message(),
        "Web server on URL http://zerobin-test.dssr.ch doesn't want to get added to the directory."
    );
    assert!(removes_instance(&err));
}

#[test]
fn a_page_without_markers_is_not_this_service() {
    let url = "https://privatebin.info".to_string();
    let props = analyze_page(
        &url,
        &PageFetch::Response {
            status: 200,
            csp_header: None,
            body: Some(b"<html>just a homepage</html>\n".to_vec()),
        },
    )
    .unwrap();
    assert_eq!(props.version, None);

    let err = assemble_privatebin(
        url,
        true,
        true,
        props,
        "CH".to_string(),
        ScanNew::default(),
    )
    .unwrap_err();
    match &err {
        ValidationError::NotThisService { url, variant } => {
            assert_eq!(url, "https://privatebin.info");
            assert_eq!(*variant, InstanceVariant::PrivateBin);
        }
        _ => panic!("expected a not-this-service failure"),
    }
    assert_eq!(
        err.message(),
        "The URL https://privatebin.info doesn't seem to be a PrivateBin instance."
    );
    assert!(removes_instance(&err));
}

#[test]
fn a_bad_status_is_reported_with_its_code() {
    let url = "https://x.example".to_string();
    let err = analyze_page(
        &url,
        &PageFetch::Response {
            status: 503,
            csp_header: None,
            body: None,
        },
    )
    .unwrap_err();
    match &err {
        ValidationError::BadStatus { status, .. } => assert_eq!(*status, 503),
        _ => panic!("expected a bad-status failure"),
    }
    assert_eq!(err.message(), "Web server responded with status code 503.");
}

#[test]
fn a_conferencing_page_yields_its_version() {
    let url = "https://meet.dssr.ch".to_string();
    let version = analyze_jitsi_page(
        &url,
        &PageFetch::Response {
            status: 200,
            csp_header: None,
            body: Some(b"<script src=\"libs/lib-jitsi-meet.min.js?v=7001\"></script>\n".to_vec()),
        },
    )
    .unwrap();
    assert_eq!(version, Some("7001".to_string()));

    let candidate = assemble_jitsi(
        url,
        true,
        true,
        version,
        "CH".to_string(),
        ScanNew::default(),
    )
    .unwrap();
    assert_eq!(candidate.instance.variant, InstanceVariant::Jitsi);
    assert!(!candidate.instance.attachments);
    assert!(!candidate.instance.csp_header);
}

#[test]
fn a_paste_service_page_is_not_a_conferencing_instance() {
    let url = "https://privatebin.net".to_string();
    let version = analyze_jitsi_page(
        &url,
        &PageFetch::Response {
            status: 200,
            csp_header: None,
            body: Some(page_with_markers()),
        },
    )
    .unwrap();
    assert_eq!(version, None);
    let err = assemble_jitsi(
        url,
        true,
        true,
        version,
        "CH".to_string(),
        ScanNew::default(),
    )
    .unwrap_err();
    assert_eq!(
        err.message(),
        "The URL https://privatebin.net doesn't seem to be a Jitsi instance."
    );
}

#[test]
fn liveness_sweep_records_one_row_per_instance() {
    let results = vec![
        (1, LivenessOutcome::Answered { status: 200 }),
        (2, LivenessOutcome::Unreachable),
        (3, LivenessOutcome::Answered { status: 200 }),
        (4, LivenessOutcome::Answered { status: 200 }),
    ];
    let rows = liveness_checks(&results);
    assert_eq!(rows.len(), 4);
    let down: Vec<i32> = rows
        .iter()
        .filter(|r| !r.up)
        .map(|r| r.instance_id)
        .collect();
    assert_eq!(down, vec![2]);
}

#[test]
fn country_lookup_paths() {
    let url = "https://privatebin.net".to_string();
    assert_eq!(
        country_from(&url, CountryOutcome::NoHost).unwrap(),
        "AQ"
    );
    assert_eq!(
        country_from(&url, CountryOutcome::AddressInvalid).unwrap(),
        "AQ"
    );
    assert_eq!(
        country_from(&url, CountryOutcome::GeoLookup { iso_code: None }).unwrap(),
        "AQ"
    );
    let err = country_from(&url, CountryOutcome::ResolutionFailed).unwrap_err();
    assert_eq!(
        err.message(),
        "Host or domain of URL https://privatebin.net is not supported."
    );
}

#[test]
fn host_classification_drives_the_lookup() {
    match country_query("https://user@privatebin.net:8443/path?q") {
        CountryQuery::ResolveDomain { host } => assert_eq!(host, "privatebin.net"),
        _ => panic!("expected a domain host"),
    }
    match country_query("http://127.0.0.1/") {
        CountryQuery::ParseAddress { host } => assert_eq!(host, "127.0.0.1"),
        _ => panic!("expected an address host"),
    }
    assert!(matches!(
        country_query("data:text/plain,hello"),
        CountryQuery::NoLookup
    ));
}

#[test]
fn rating_scan_url_names_the_host() {
    assert_eq!(
        rating_scan_url("https://privatebin.net/about").unwrap(),
        "https://observatory-api.mdn.mozilla.net/api/v2/scan?host=privatebin.net"
    );
    assert_eq!(rating_scan_url("data:text/plain,x"), None);
}

#[test]
fn the_probe_user_agent_names_the_bot() {
    assert_eq!(
        instance_directory::probe::user_agent("0.1.0"),
        "PrivateBinDirectoryBot/0.1.0 (+https://privatebin.info/directory/about)"
    );
}
