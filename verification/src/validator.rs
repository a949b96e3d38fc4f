//! The instance validator.
//!
//! Validation runs in a fixed order: reject malformed input,
//! canonicalize, probe the HTTP-to-HTTPS redirect, pass the robots
//! gate, and only then run the three feature checks — page properties,
//! country, rating — which are independent of one another.  The caller
//! performs each network step and feeds its outcome to the decision
//! functions; the functions here begin the run, judge the fetched root
//! page, and assemble the final candidate.

use vstd::prelude::*;

verus! {

use vstd::string::StrSliceExecFns;
use vstd::string::StringExecFns;
use crate::canon::is_http_url;
use crate::canon::spec_strip_url;
use crate::canon::strip_url;
use crate::csp::spec_csp_compliant;
use crate::csp::csp_compliant;
use crate::errors::ValidationError;
use crate::models::InstanceNew;
use crate::models::InstanceVariant;
use crate::models::ScanNew;
use crate::properties::spec_page_scan;
use crate::properties::spec_scan_jitsi_lines;
use crate::properties::scan_page;
use crate::properties::scan_jitsi_page;
use crate::reader::read_lines;
use crate::reader::line_views;
use crate::reader::spec_body_lines;
use crate::reader::MAX_LINE_COUNT;
use crate::text::str_prefix;
use crate::text::str_copy;

/// A candidate paste-service instance: what one validation produced.
#[derive(Debug)]
pub struct PrivateBin {
    pub instance: InstanceNew,
    pub scans: Vec<ScanNew>,
}

/// A candidate conferencing instance: what one validation produced.
#[derive(Debug)]
pub struct Jitsi {
    pub instance: InstanceNew,
    pub scans: Vec<ScanNew>,
}

/// Begin a validation run: reject anything but plain HTTP or HTTPS,
/// and canonicalize the rest.  A degenerate path of nothing but
/// slashes leaves no scheme behind after canonicalization; such input
/// is rejected here too, so every accepted URL can be probed.
pub fn begin_validation(url: &String) -> (r: Result<String, ValidationError>)
    ensures
        is_http_url(url@) && is_http_url(spec_strip_url(url@)) ==> (r matches Ok(c) && c@
            == spec_strip_url(url@)),
        !(is_http_url(url@) && is_http_url(spec_strip_url(url@))) ==> (r matches Err(e) && (
        e matches ValidationError::InvalidUrl { url: u } && u@ == url@)),
        r matches Ok(c) ==> c@ == spec_strip_url(url@) && is_http_url(c@),
{
    if str_prefix(url.as_str(), "http://") || str_prefix(url.as_str(), "https://") {
        let canonical = strip_url(str_copy(url.as_str()));
        if str_prefix(canonical.as_str(), "http://") || str_prefix(
            canonical.as_str(),
            "https://",
        ) {
            Ok(canonical)
        } else {
            Err(ValidationError::InvalidUrl { url: str_copy(url.as_str()) })
        }
    } else {
        Err(ValidationError::InvalidUrl { url: str_copy(url.as_str()) })
    }
}

/// What fetching the instance's root page produced, as plain values.
/// `csp_header` carries the Content-Security-Policy header when the
/// answer has a readable one; `body` is `None` when it could not be
/// read.
pub enum PageFetch {
    /// The request failed; `timed_out` tells a timeout from the other
    /// transport failures.
    Unreachable { timed_out: bool },
    Response { status: u16, csp_header: Option<String>, body: Option<Vec<u8>> },
}

/// What the properties check establishes about a paste-service page.
#[derive(Debug)]
pub struct PageProperties {
    /// The version marker, if one was found.
    pub version: Option<String>,
    /// Whether the attachment marker was found.
    pub attachments: bool,
    /// Whether the captured policy header matches the historical table.
    pub csp_header: bool,
}

/// The view of an optional string, the empty sequence when absent.
pub open spec fn opt_view(s: Option<String>) -> Seq<char> {
    match s {
        Some(v) => v@,
        None => Seq::<char>::empty(),
    }
}

/// Judge a fetched root page: only a readable 200 answer is analyzed;
/// its lines are scanned once, bounded, and the captured policy header
/// is compared against the table under the version and template found.
pub fn analyze_page(url: &String, fetch: &PageFetch) -> (r: Result<
    PageProperties,
    ValidationError,
>)
    ensures
        match fetch {
            PageFetch::Unreachable { timed_out } => r matches Err(e) && (
            e matches ValidationError::Unresponsive { url: u, timed_out: t } && u@ == url@ && t
                == timed_out),
            PageFetch::Response { status, csp_header, body } => {
                if status != 200 {
                    r matches Err(e) && (e matches ValidationError::BadStatus { url: u, status: c }
                        && u@ == url@ && c == status)
                } else if body is None {
                    r matches Err(e) && (e matches ValidationError::Unresponsive {
                        url: u,
                        timed_out: t,
                    } && u@ == url@ && t == false)
                } else {
                    ({
                        let (v, a, t) = spec_page_scan(
                            spec_body_lines(body->0@, MAX_LINE_COUNT as nat),
                        );
                        r matches Ok(p) && (match v {
                            Some(vs) => p.version matches Some(ps) && ps@ == vs,
                            None => p.version is None,
                        }) && p.attachments == a && p.csp_header == spec_csp_compliant(
                            match v {
                                Some(vs) => vs,
                                None => Seq::<char>::empty(),
                            },
                            t,
                            opt_view(*csp_header),
                        )
                    })
                }
            },
        },
{
    match fetch {
        PageFetch::Unreachable { timed_out } => Err(ValidationError::Unresponsive {
            url: str_copy(url.as_str()),
            timed_out: *timed_out,
        }),
        PageFetch::Response { status, csp_header, body } => {
            if *status != 200 {
                return Err(ValidationError::BadStatus {
                    url: str_copy(url.as_str()),
                    status: *status,
                });
            }
            match body {
                None => Err(ValidationError::Unresponsive {
                    url: str_copy(url.as_str()),
                    timed_out: false,
                }),
                Some(bytes) => {
                    let lines = read_lines(bytes);
                    let scan = scan_page(&lines);
                    let version_str = match &scan.version {
                        Some(v) => v.as_str(),
                        None => "",
                    };
                    let policy_str = match csp_header {
                        Some(p) => p.as_str(),
                        None => "",
                    };
                    proof {
                        reveal_strlit("");
                        let (v, a, t) = spec_page_scan(line_views(lines@));
                        assert(line_views(lines@) == spec_body_lines(
                            bytes@,
                            MAX_LINE_COUNT as nat,
                        ));
                        assert(version_str@ == (match v {
                            Some(vs) => vs,
                            None => Seq::<char>::empty(),
                        }));
                        assert(policy_str@ == opt_view(*csp_header));
                        assert(scan.template == t);
                    }
                    let compliant = csp_compliant(version_str, scan.template, policy_str);
                    Ok(PageProperties {
                        version: scan.version,
                        attachments: scan.attachments,
                        csp_header: compliant,
                    })
                },
            }
        },
    }
}

/// Judge a fetched conferencing root page: only a readable 200 answer
/// is analyzed, and only for the version marker.
pub fn analyze_jitsi_page(url: &String, fetch: &PageFetch) -> (r: Result<
    Option<String>,
    ValidationError,
>)
    ensures
        match fetch {
            PageFetch::Unreachable { timed_out } => r matches Err(e) && (
            e matches ValidationError::Unresponsive { url: u, timed_out: t } && u@ == url@ && t
                == timed_out),
            PageFetch::Response { status, csp_header, body } => {
                if status != 200 {
                    r matches Err(e) && (e matches ValidationError::BadStatus { url: u, status: c }
                        && u@ == url@ && c == status)
                } else if body is None {
                    r matches Err(e) && (e matches ValidationError::Unresponsive {
                        url: u,
                        timed_out: t,
                    } && u@ == url@ && t == false)
                } else {
                    match spec_scan_jitsi_lines(
                        spec_body_lines(body->0@, MAX_LINE_COUNT as nat),
                        None,
                    ) {
                        Some(vs) => r matches Ok(p) && (p matches Some(ps) && ps@ == vs),
                        None => r matches Ok(p) && p is None,
                    }
                }
            },
        },
{
    match fetch {
        PageFetch::Unreachable { timed_out } => Err(ValidationError::Unresponsive {
            url: str_copy(url.as_str()),
            timed_out: *timed_out,
        }),
        PageFetch::Response { status, csp_header: _, body } => {
            if *status != 200 {
                return Err(ValidationError::BadStatus {
                    url: str_copy(url.as_str()),
                    status: *status,
                });
            }
            match body {
                None => Err(ValidationError::Unresponsive {
                    url: str_copy(url.as_str()),
                    timed_out: false,
                }),
                Some(bytes) => {
                    let lines = read_lines(bytes);
                    Ok(scan_jitsi_page(&lines))
                },
            }
        },
    }
}

/// Assemble the paste-service candidate, once every check has
/// delivered.  Without a version marker the page is not an instance of
/// the service, and that failure is terminal.
pub fn assemble_privatebin(
    url: String,
    https: bool,
    https_redirect: bool,
    props: PageProperties,
    country: String,
    scan: ScanNew,
) -> (r: Result<PrivateBin, ValidationError>)
    ensures
        props.version is None ==> (r matches Err(e) && (
        e matches ValidationError::NotThisService { url: u, variant: v } && u@ == url@ && v
            == InstanceVariant::PrivateBin)),
        props.version is Some ==> (r matches Ok(pb) && pb.instance.id is None
            && pb.instance.url@ == url@ && pb.instance.version == props.version->0
            && pb.instance.https == https && pb.instance.https_redirect == https_redirect
            && pb.instance.country_id == country && pb.instance.attachments == props.attachments
            && pb.instance.csp_header == props.csp_header && pb.instance.variant
            == InstanceVariant::PrivateBin && pb.scans@ =~= seq![scan]),
{
    match props.version {
        None => Err(ValidationError::NotThisService {
            url,
            variant: InstanceVariant::PrivateBin,
        }),
        Some(version) => {
            let mut scans: Vec<ScanNew> = Vec::new();
            scans.push(scan);
            Ok(PrivateBin {
                instance: InstanceNew {
                    id: None,
                    url,
                    version,
                    https,
                    https_redirect,
                    country_id: country,
                    attachments: props.attachments,
                    csp_header: props.csp_header,
                    variant: InstanceVariant::PrivateBin,
                },
                scans,
            })
        },
    }
}

/// Assemble the conferencing candidate.  It has no attachment or
/// policy findings; without a version marker the failure is terminal.
pub fn assemble_jitsi(
    url: String,
    https: bool,
    https_redirect: bool,
    version: Option<String>,
    country: String,
    scan: ScanNew,
) -> (r: Result<Jitsi, ValidationError>)
    ensures
        version is None ==> (r matches Err(e) && (e matches ValidationError::NotThisService {
            url: u,
            variant: v,
        } && u@ == url@ && v == InstanceVariant::Jitsi)),
        version is Some ==> (r matches Ok(j) && j.instance.id is None && j.instance.url@ == url@
            && j.instance.version == version->0 && j.instance.https == https
            && j.instance.https_redirect == https_redirect && j.instance.country_id == country
            && j.instance.attachments == false && j.instance.csp_header == false
            && j.instance.variant == InstanceVariant::Jitsi && j.scans@ =~= seq![scan]),
{
    match version {
        None => Err(ValidationError::NotThisService { url, variant: InstanceVariant::Jitsi }),
        Some(version) => {
            let mut scans: Vec<ScanNew> = Vec::new();
            scans.push(scan);
            Ok(Jitsi {
                instance: InstanceNew {
                    id: None,
                    url,
                    version,
                    https,
                    https_redirect,
                    country_id: country,
                    attachments: false,
                    csp_header: false,
                    variant: InstanceVariant::Jitsi,
                },
                scans,
            })
        },
    }
}

} // verus!
