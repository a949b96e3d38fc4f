//! Data model of the directory: instances, liveness checks, rating
//! scans, and the page records the human-facing surface renders.

use vstd::prelude::*;

verus! {

use vstd::string::StringExecFns;
use crate::rating::rating_to_percent;
use crate::rating::spec_rating_to_percent;

/// Directory title, shown on every page.
pub const TITLE: &'static str = "Instance Directory";

/// Which family of service an instance belongs to.
#[derive(Clone, Copy, PartialEq, Eq, Debug, Structural)]
pub enum InstanceVariant {
    PrivateBin,
    Jitsi,
}

/// A stored instance, together with the aggregate columns the
/// repository computes at read time (uptime and latest rating).
#[derive(Clone, Debug)]
pub struct Instance {
    pub id: i32,
    pub url: String,
    pub version: String,
    pub https: bool,
    pub https_redirect: bool,
    pub country_id: String,
    pub attachments: bool,
    pub csp_header: bool,
    pub uptime: i32,
    pub rating_mozilla_observatory: String,
}

impl Instance {
    /// Render a boolean attribute as a check mark or a ballot cross for
    /// the directory table.
    #[must_use]
    pub fn format(flag: bool) -> (r: String)
        ensures
            flag ==> r@ == "\u{2714}"@,
            !flag ==> r@ == "\u{2718}"@,
    {
        if flag {
            String::from_str("\u{2714}")
        } else {
            String::from_str("\u{2718}")
        }
    }
}

/// A not-yet-stored instance, produced by the validator.
#[derive(Clone, Debug)]
pub struct InstanceNew {
    pub id: Option<i32>,
    pub url: String,
    pub version: String,
    pub https: bool,
    pub https_redirect: bool,
    pub country_id: String,
    pub attachments: bool,
    pub csp_header: bool,
    pub variant: InstanceVariant,
}

/// A stored liveness sample.
pub struct Check {
    pub id: i32,
    pub updated: u64,
    pub up: bool,
    pub instance_id: i32,
}

/// A liveness sample about to be stored.
pub struct CheckNew {
    pub up: bool,
    pub instance_id: i32,
}

/// A stored security-rating sample.
pub struct Scan {
    pub id: i32,
    pub scanner: String,
    pub rating: String,
    pub percent: i32,
    pub instance_id: i32,
}

/// A security-rating sample about to be stored or staged.
#[derive(Clone, Debug)]
pub struct ScanNew {
    pub scanner: String,
    pub rating: String,
    pub percent: i32,
    pub instance_id: i32,
}

impl ScanNew {
    /// Build a scan row; the percent column is derived from the letter
    /// grade.
    #[must_use]
    pub fn new(scanner: &str, rating: &str, instance_id: i32) -> (r: ScanNew)
        ensures
            r.scanner@ == scanner@,
            r.rating@ == rating@,
            r.percent == spec_rating_to_percent(rating@) as i32,
            r.instance_id == instance_id,
    {
        let percent_raw = rating_to_percent(rating);
        ScanNew {
            scanner: String::from_str(scanner),
            rating: String::from_str(rating),
            percent: percent_raw as i32,
            instance_id,
        }
    }
}

impl Default for ScanNew {
    /// The sentinel scan stored before any rating was retrieved.
    fn default() -> (r: ScanNew)
        ensures
            r.scanner@ == "mozilla_observatory"@,
            r.rating@ == "-"@,
            r.percent == spec_rating_to_percent("-"@) as i32,
            r.instance_id == 0,
    {
        ScanNew::new("mozilla_observatory", "-", 0)
    }
}

/// Data of a plain page.
pub struct Page {
    pub title: String,
    pub topic: String,
}

impl Page {
    #[must_use]
    pub fn new(topic: String) -> (r: Page)
        ensures
            r.title@ == TITLE@,
            r.topic == topic,
    {
        Page { title: String::from_str(TITLE), topic }
    }
}

/// Data of the page showing a single checked instance.
pub struct InstancePage {
    pub title: String,
    pub topic: String,
    pub csp_recommendation: String,
    pub instance: Option<Instance>,
    pub error: String,
}

impl InstancePage {
    #[must_use]
    pub fn new(topic: String, instance: Option<Instance>, error: Option<String>) -> (r:
        InstancePage)
        ensures
            r.title@ == TITLE@,
            r.topic == topic,
            r.csp_recommendation@ == crate::csp::CSP_RECOMMENDATION@,
            r.instance == instance,
            error is Some ==> r.error == error->0,
            error is None ==> r.error@ == Seq::<char>::empty(),
    {
        let error_string = match error {
            Some(e) => e,
            None => String::new(),
        };
        InstancePage {
            title: String::from_str(TITLE),
            topic,
            csp_recommendation: String::from_str(crate::csp::CSP_RECOMMENDATION),
            instance,
            error: error_string,
        }
    }
}

/// Data of a page reporting an error or a success.
pub struct StatusPage {
    pub title: String,
    pub topic: String,
    pub error: String,
    pub success: String,
}

impl StatusPage {
    #[must_use]
    pub fn new(topic: String, error: Option<String>, success: Option<String>) -> (r: StatusPage)
        ensures
            r.title@ == TITLE@,
            r.topic == topic,
            error is Some ==> r.error == error->0,
            error is None ==> r.error@ == Seq::<char>::empty(),
            success is Some ==> r.success == success->0,
            success is None ==> r.success@ == Seq::<char>::empty(),
    {
        let error_string = match error {
            Some(e) => e,
            None => String::new(),
        };
        let success_string = match success {
            Some(s) => s,
            None => String::new(),
        };
        StatusPage { title: String::from_str(TITLE), topic, error: error_string, success: success_string }
    }
}

/// Data of the directory listing page: one table per release line.
pub struct TablePage {
    pub title: String,
    pub topic: String,
    pub tables: Vec<HtmlTable>,
}

impl TablePage {
    #[must_use]
    pub fn new(topic: String, tables: Vec<HtmlTable>) -> (r: TablePage)
        ensures
            r.title@ == TITLE@,
            r.topic == topic,
            r.tables == tables,
    {
        TablePage { title: String::from_str(TITLE), topic, tables }
    }
}

/// One rendered table of the directory listing.
pub struct HtmlTable {
    pub title: String,
    pub header: [String; 9],
    pub body: Vec<[String; 10]>,
}

/// The form in which a URL is submitted for adding or checking.
pub struct AddForm {
    pub url: String,
}

/// The cron access key, held by the serving layer.
pub struct Lock {
    pub keyhole: String,
}

/// Marker type under which the serving layer registers the cron key.
pub struct LockFairing;

} // verus!
