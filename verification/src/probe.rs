//! HTTP-to-HTTPS redirect analysis.
//!
//! The first step after canonicalization: a HEAD request is issued at
//! the plain-HTTP variant of the URL, and its outcome decides the
//! `https` and `https_redirect` findings and, for a plain-HTTP
//! candidate redirected to HTTPS, the adopted URL.  The caller issues
//! the request; the decision is made here.

use vstd::prelude::*;

verus! {

use vstd::string::StrSliceExecFns;
use vstd::string::StringExecFns;
use crate::text::starts_with;
use crate::text::str_prefix;
use crate::text::str_range;
use crate::text::str_copy;
use crate::canon::is_http_url;
use crate::canon::spec_strip_url;
use crate::canon::strip_url;
use crate::errors::ValidationError;

/// The version-stamped user-agent every probe carries, identifying the
/// bot and linking to its disclosure page so operators can opt out.
pub fn user_agent(version: &str) -> (r: String)
    ensures
        r@ == "PrivateBinDirectoryBot/"@ + version@
            + " (+https://privatebin.info/directory/about)"@,
{
    let mut r = String::from_str("PrivateBinDirectoryBot/");
    r.append(version);
    r.append(" (+https://privatebin.info/directory/about)");
    r
}

/// What a HEAD request at the plain-HTTP variant produced, as plain
/// values.  `location` carries the `Location` header when the answer
/// has a readable one.
pub enum ProbeOutcome {
    /// The request failed; `timed_out` tells a timeout from the other
    /// transport failures.
    Unreachable { timed_out: bool },
    Response { status: u16, location: Option<String> },
}

/// The standard redirection status codes.
pub open spec fn spec_is_redirect(status: u16) -> bool {
    status == 300 || status == 301 || status == 302 || status == 303 || status == 304 || status
        == 307 || status == 308
}

/// Whether a status code is one of the standard redirection codes.
pub fn is_redirect(status: u16) -> (r: bool)
    ensures
        r == spec_is_redirect(status),
{
    status == 300 || status == 301 || status == 302 || status == 303 || status == 304 || status
        == 307 || status == 308
}

/// The plain-HTTP variant of a canonical URL, at which the redirect
/// probe is issued.
pub fn http_probe_url(url: &String) -> (r: String)
    requires
        is_http_url(url@),
    ensures
        starts_with(url@, "https://"@) ==> r@ == "http"@ + url@.skip(5),
        !starts_with(url@, "https://"@) ==> r@ == url@,
{
    if str_prefix(url.as_str(), "https://") {
        proof {
            reveal_strlit("https://");
        }
        let mut r = String::from_str("http");
        let tail = str_range(url.as_str(), 5, url.as_str().unicode_len());
        r.append(tail.as_str());
        r
    } else {
        str_copy(url.as_str())
    }
}

/// What the redirect probe established.
#[derive(Debug)]
pub struct HttpsFindings {
    /// The instance speaks HTTPS (originally, or after the redirect).
    pub https: bool,
    /// Plain HTTP at the same host leads to HTTPS — by answering with a
    /// redirect there, or by not speaking HTTP at all.
    pub https_redirect: bool,
    /// The URL under which the instance is checked from here on.
    pub url: String,
}

/// Whether an answer redirects to an HTTPS target.
pub open spec fn spec_redirects_to_https(status: u16, location: Option<String>) -> bool {
    spec_is_redirect(status) && (location matches Some(l) && starts_with(l@, "https://"@))
}

/// Decide the HTTPS findings from the probe's outcome.
///
/// An unreachable plain-HTTP candidate is fatal; an unreachable HTTPS
/// candidate counts as an HTTPS-only host, which is compliant by
/// convention.  A redirect to an HTTPS target sets `https_redirect`,
/// and a plain-HTTP candidate adopts the redirect's target, it too in
/// canonical form.
pub fn apply_http_probe(url: String, outcome: &ProbeOutcome) -> (r: Result<
    HttpsFindings,
    ValidationError,
>)
    requires
        is_http_url(url@),
    ensures
        match outcome {
            ProbeOutcome::Unreachable { timed_out } => {
                if starts_with(url@, "https://"@) {
                    r matches Ok(f) && f.https && f.https_redirect && f.url@ == url@
                } else {
                    r matches Err(e) && (e matches ValidationError::Unresponsive {
                        url: u,
                        timed_out: t,
                    } && u@ == url@ && t == timed_out)
                }
            },
            ProbeOutcome::Response { status, location } => {
                r matches Ok(f) && f.url@ == (
                if spec_redirects_to_https(*status, *location) && !starts_with(
                    url@,
                    "https://"@,
                ) {
                    spec_strip_url(location->0@)
                } else {
                    url@
                }) && f.https == (starts_with(url@, "https://"@) || spec_redirects_to_https(
                    *status,
                    *location,
                )) && f.https_redirect == spec_redirects_to_https(*status, *location)
            },
        },
{
    let was_https = str_prefix(url.as_str(), "https://");
    match outcome {
        ProbeOutcome::Unreachable { timed_out } => {
            if was_https {
                // an HTTPS-only host: uncommon, but compliant
                Ok(HttpsFindings { https: true, https_redirect: true, url })
            } else {
                Err(ValidationError::Unresponsive { url, timed_out: *timed_out })
            }
        },
        ProbeOutcome::Response { status, location } => {
            let mut https_redirect = false;
            if is_redirect(*status) {
                if let Some(target) = location {
                    if str_prefix(target.as_str(), "https://") {
                        https_redirect = true;
                        if !was_https {
                            // the host moved us to HTTPS: adopt that URL
                            let adopted = strip_url(str_copy(target.as_str()));
                            return Ok(HttpsFindings {
                                https: true,
                                https_redirect: true,
                                url: adopted,
                            });
                        }
                    }
                }
            }
            Ok(HttpsFindings { https: was_https, https_redirect, url })
        },
    }
}

} // verus!
