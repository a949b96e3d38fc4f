//! Third-party security-rating retrieval: grade arithmetic, the scan
//! endpoint, and the bounded retry policy around the rating API.
//!
//! The network calls themselves are made by the caller; the poll state
//! machine here decides, from each observed outcome, whether a grade is
//! accepted, the attempt is retried after a slow backoff, or the
//! sentinel rating is returned.

use vstd::prelude::*;

verus! {

use vstd::string::StringExecFns;
use crate::text::str_equal;
use crate::models::ScanNew;

/// Scan endpoint of the rating API; the host under test is appended.
pub const OBSERVATORY_API: &'static str =
    "https://observatory-api.mdn.mozilla.net/api/v2/scan?host=";

/// Ceiling on the advertised length of a rating API response; anything
/// larger is discarded unparsed.
pub const OBSERVATORY_MAX_CONTENT_LENGTH: u64 = 10240;

/// How many times one rating retrieval may try the API.
pub const RATING_ATTEMPTS: u8 = 5;

/// Name under which the rating scanner's results are stored.
pub const RATING_SCANNER: &'static str = "mozilla_observatory";

/// Percent equivalent of a letter grade; unknown grades count as zero.
pub open spec fn spec_rating_to_percent(r: Seq<char>) -> u8 {
    if r == "A+"@ {
        97
    } else if r == "A"@ {
        93
    } else if r == "A-"@ {
        90
    } else if r == "B+"@ {
        87
    } else if r == "B"@ {
        83
    } else if r == "B-"@ {
        80
    } else if r == "C+"@ {
        77
    } else if r == "C"@ {
        73
    } else if r == "C-"@ {
        70
    } else if r == "D+"@ {
        67
    } else if r == "D"@ {
        63
    } else if r == "D-"@ {
        60
    } else if r == "F"@ {
        50
    } else {
        0
    }
}

/// Turn a letter grade into its percent equivalent.
pub fn rating_to_percent(rating: &str) -> (r: u8)
    ensures
        r == spec_rating_to_percent(rating@),
{
    if str_equal(rating, "A+") {
        97
    } else if str_equal(rating, "A") {
        93
    } else if str_equal(rating, "A-") {
        90
    } else if str_equal(rating, "B+") {
        87
    } else if str_equal(rating, "B") {
        83
    } else if str_equal(rating, "B-") {
        80
    } else if str_equal(rating, "C+") {
        77
    } else if str_equal(rating, "C") {
        73
    } else if str_equal(rating, "C-") {
        70
    } else if str_equal(rating, "D+") {
        67
    } else if str_equal(rating, "D") {
        63
    } else if str_equal(rating, "D-") {
        60
    } else if str_equal(rating, "F") {
        50
    } else {
        0
    }
}

/// The scan URL for a host: the API endpoint with the host appended.
pub fn observatory_url(host: &str) -> (r: String)
    ensures
        r@ == OBSERVATORY_API@ + host@,
{
    let mut url = String::from_str(OBSERVATORY_API);
    url.append(host);
    url
}

/// The scan URL for an instance URL's host, if it has one; without a
/// host no rating is retrieved and the sentinel scan stands.
pub fn rating_scan_url(url: &str) -> (r: Option<String>)
    ensures
        match crate::urlinfo::url_host_of(url@) {
            Some((h, is_domain)) => r matches Some(u) && u@ == OBSERVATORY_API@ + h,
            None => r is None,
        },
{
    match crate::urlinfo::url_host_parts(url) {
        Some((host, _)) => Some(observatory_url(host.as_str())),
        None => None,
    }
}

/// Whether an advertised response length exceeds the ceiling.
pub fn response_too_large(content_length: u64) -> (r: bool)
    ensures
        r == (content_length >= OBSERVATORY_MAX_CONTENT_LENGTH),
{
    content_length >= OBSERVATORY_MAX_CONTENT_LENGTH
}

/// Observed outcome of one rating API attempt, as plain values.
pub enum RatingEvent {
    /// The request failed or timed out.
    RequestFailed,
    /// The API answered with a status other than 200.
    HttpStatus { status: u16 },
    /// The API answered 200 but advertised a body over the ceiling.
    ResponseTooLarge,
    /// The body could not be read or decoded as a scan report.
    UnparsableBody,
    /// The decoded scan report.
    ApiReport { error: Option<String>, grade: Option<String>, status_code: Option<u16> },
}

/// What the poll does after an attempt.
pub enum RatingAction {
    /// A grade was reported: store this scan.
    Accept { scan: ScanNew },
    /// Wait between the given bounds (milliseconds), then try again.
    Retry { min_delay_ms: u64, max_delay_ms: u64 },
    /// No grade could be obtained: store the sentinel scan.
    GiveUp { scan: ScanNew },
}

/// The grade an attempt outcome delivers, if any: the report must carry
/// a grade, no error, and a completed (200) scan status.
pub open spec fn spec_rating_accepts(e: RatingEvent) -> Option<Seq<char>> {
    match e {
        RatingEvent::ApiReport { error, grade, status_code } => {
            if error is None && grade is Some && status_code == Some(200u16) {
                Some(grade->0@)
            } else {
                None
            }
        },
        _ => None,
    }
}

/// Whether an attempt outcome warrants another try: a server-side error,
/// or the ambiguous "error-unknown" report that marks a scan still in
/// progress.
pub open spec fn spec_rating_retries(e: RatingEvent) -> bool {
    match e {
        RatingEvent::HttpStatus { status } => status == 500,
        RatingEvent::ApiReport { error, grade, status_code } => {
            !(error is None && grade is Some && status_code == Some(200u16)) && (error matches Some(
                msg,
            ) && msg@ == "error-unknown"@)
        },
        _ => false,
    }
}

/// Bounds (milliseconds) of the jittered pause before every attempt.
pub fn initial_delay_bounds() -> (r: (u64, u64))
    ensures
        r.0 == 500 && r.1 == 3000,
{
    (500, 3000)
}

/// State of one bounded rating poll.
pub struct RatingPoll {
    pub attempts_left: u8,
}

impl RatingPoll {
    /// A fresh poll with the full attempt budget.
    pub fn start() -> (p: RatingPoll)
        ensures
            p.attempts_left == RATING_ATTEMPTS,
    {
        RatingPoll { attempts_left: RATING_ATTEMPTS }
    }

    /// Whether another attempt may be made at all.
    pub fn may_attempt(&self) -> (r: bool)
        ensures
            r == (self.attempts_left > 0),
    {
        self.attempts_left > 0
    }

    /// Consume one attempt and decide from its outcome: accept the
    /// reported grade, retry after a slow backoff, or give up with the
    /// sentinel scan.
    pub fn step(&mut self, event: &RatingEvent) -> (a: RatingAction)
        requires
            old(self).attempts_left > 0,
        ensures
            final(self).attempts_left == old(self).attempts_left - 1,
            match spec_rating_accepts(*event) {
                Some(grade) => a matches RatingAction::Accept { scan } && scan.scanner@
                    == RATING_SCANNER@ && scan.rating@ == grade && scan.percent
                    == spec_rating_to_percent(grade) as i32 && scan.instance_id == 0,
                None => {
                    if spec_rating_retries(*event) && final(self).attempts_left > 0 {
                        a == (RatingAction::Retry { min_delay_ms: 2000u64, max_delay_ms: 5000u64 })
                    } else {
                        a matches RatingAction::GiveUp { scan } && scan.scanner@
                            == RATING_SCANNER@ && scan.rating@ == "-"@ && scan.percent
                            == spec_rating_to_percent("-"@) as i32 && scan.instance_id == 0
                    }
                },
            },
    {
        self.attempts_left = self.attempts_left - 1;
        match event {
            RatingEvent::ApiReport { error, grade, status_code } => {
                let completed = match status_code {
                    Some(code) => *code == 200,
                    None => false,
                };
                if error.is_none() && grade.is_some() && completed {
                    let g = match grade {
                        Some(g) => g.as_str(),
                        None => "",
                    };
                    return RatingAction::Accept { scan: ScanNew::new(RATING_SCANNER, g, 0) };
                }
                let in_progress = match error {
                    Some(msg) => str_equal(msg.as_str(), "error-unknown"),
                    None => false,
                };
                if in_progress && self.attempts_left > 0 {
                    RatingAction::Retry { min_delay_ms: 2000, max_delay_ms: 5000 }
                } else {
                    RatingAction::GiveUp { scan: ScanNew::new(RATING_SCANNER, "-", 0) }
                }
            },
            RatingEvent::HttpStatus { status } => {
                if *status == 500 && self.attempts_left > 0 {
                    RatingAction::Retry { min_delay_ms: 2000, max_delay_ms: 5000 }
                } else {
                    RatingAction::GiveUp { scan: ScanNew::new(RATING_SCANNER, "-", 0) }
                }
            },
            _ => RatingAction::GiveUp { scan: ScanNew::new(RATING_SCANNER, "-", 0) },
        }
    }
}

} // verus!
