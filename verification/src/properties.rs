//! Scanning the instance's root page for its markers.
//!
//! One bounded pass over the page's lines looks for a version marker
//! (a script reference to one of the two known client libraries, with
//! an optional legacy `Alpha%20` prefix before the version number), an
//! attachment-capability marker, and a template-family marker (the
//! stylesheet path distinguishing the two UI generations).  The
//! earliest match in the earliest line wins, exactly as a left-to-right
//! scan finds it.

use vstd::prelude::*;

verus! {

use vstd::string::StrSliceExecFns;
use crate::text::matches_at;
use crate::text::contains_seq;
use crate::text::str_at;
use crate::text::str_contains;
use crate::text::str_range;
use crate::csp::PrivateBinTemplate;
use crate::reader::BodyLine;
use crate::reader::line_views;

/// The attachment-capability marker.
pub const ATTACHMENT_MARKER: &'static str = " id=\"attachment\" ";

/// A decimal digit.
pub open spec fn is_digit(c: char) -> bool {
    '0' <= c && c <= '9'
}

/// End of the run of digits beginning at `i`.
pub open spec fn digit_run_end(s: Seq<char>, i: int) -> int
    decreases s.len() - i,
    when 0 <= i <= s.len()
{
    if i < s.len() && is_digit(s[i]) {
        digit_run_end(s, i + 1)
    } else {
        i
    }
}

/// End of the run of dots beginning at `i`.
pub open spec fn dot_run_end(s: Seq<char>, i: int) -> int
    decreases s.len() - i,
    when 0 <= i <= s.len()
{
    if i < s.len() && s[i] == '.' {
        dot_run_end(s, i + 1)
    } else {
        i
    }
}

/// End of the version number beginning at `i`, if one begins there:
/// one or more digits, a dot, one or more digits, then any run of dots
/// and any run of digits, each taken as far as it reaches.
pub open spec fn version_digits_end(s: Seq<char>, i: int) -> Option<int> {
    let e1 = digit_run_end(s, i);
    if e1 == i {
        None
    } else if e1 < s.len() && s[e1] == '.' {
        let e2 = digit_run_end(s, e1 + 1);
        if e2 == e1 + 1 {
            None
        } else {
            Some(digit_run_end(s, dot_run_end(s, e2)))
        }
    } else {
        None
    }
}

/// The version number at `j`, allowing the legacy `Alpha%20` prefix
/// before the digits; the prefix itself is not part of the version.
pub open spec fn version_at(s: Seq<char>, j: int) -> Option<Seq<char>> {
    let k = if matches_at(s, "Alpha%20"@, j) {
        j + 8
    } else {
        j
    };
    match version_digits_end(s, k) {
        Some(e) => Some(s.subrange(k, e)),
        None => None,
    }
}

/// The version a script-reference marker starting at `i` yields: the
/// path names one of the two known client libraries, any single
/// character, `js?`, and then the version number.
pub open spec fn pb_version_at(s: Seq<char>, i: int) -> Option<Seq<char>> {
    if matches_at(s, "js/privatebin"@, i) && matches_at(s, "js?"@, i + 14) {
        version_at(s, i + 17)
    } else if matches_at(s, "js/zerobin"@, i) && matches_at(s, "js?"@, i + 11) {
        version_at(s, i + 14)
    } else {
        None
    }
}

/// The version of the leftmost script-reference marker at or after `i`.
pub open spec fn scan_version(s: Seq<char>, i: int) -> Option<Seq<char>>
    decreases s.len() - i,
    when 0 <= i
{
    if i >= s.len() {
        None
    } else if pb_version_at(s, i) is Some {
        pb_version_at(s, i)
    } else {
        scan_version(s, i + 1)
    }
}

/// The version the line's leftmost script-reference marker yields.
pub open spec fn spec_find_version(s: Seq<char>) -> Option<Seq<char>> {
    scan_version(s, 0)
}

/// The template family a stylesheet-path marker starting at `i`
/// yields: `css/bootstrap`, a run of digits, and a slash; digits name
/// the newer generation, no digits the older one.
pub open spec fn template_at(s: Seq<char>, i: int) -> Option<PrivateBinTemplate> {
    if matches_at(s, "css/bootstrap"@, i) {
        let e = digit_run_end(s, i + 13);
        if e < s.len() && s[e] == '/' {
            if e > i + 13 {
                Some(PrivateBinTemplate::Bootstrap5)
            } else {
                Some(PrivateBinTemplate::Bootstrap3)
            }
        } else {
            None
        }
    } else {
        None
    }
}

/// The template family of the leftmost stylesheet marker at or after
/// `i`.
pub open spec fn scan_template(s: Seq<char>, i: int) -> Option<PrivateBinTemplate>
    decreases s.len() - i,
    when 0 <= i
{
    if i >= s.len() {
        None
    } else if template_at(s, i) is Some {
        template_at(s, i)
    } else {
        scan_template(s, i + 1)
    }
}

/// The template family the line's leftmost stylesheet marker yields.
pub open spec fn spec_find_template(s: Seq<char>) -> Option<PrivateBinTemplate> {
    scan_template(s, 0)
}

/// The version a conferencing-client script reference starting at `i`
/// yields: the path names the meeting library, `min`, `js?v=`, and one
/// or more digits with optional dot-and-digit runs.
pub open spec fn jitsi_version_at(s: Seq<char>, i: int) -> Option<Seq<char>> {
    if matches_at(s, "libs/lib-jitsi-meet"@, i) && matches_at(s, "min"@, i + 20) && matches_at(
        s,
        "js?v="@,
        i + 24,
    ) {
        let e1 = digit_run_end(s, i + 29);
        if e1 == i + 29 {
            None
        } else {
            Some(s.subrange(i + 29, digit_run_end(s, dot_run_end(s, e1))))
        }
    } else {
        None
    }
}

/// The version of the leftmost conferencing-client marker at or after
/// `i`.
pub open spec fn scan_jitsi_version(s: Seq<char>, i: int) -> Option<Seq<char>>
    decreases s.len() - i,
    when 0 <= i
{
    if i >= s.len() {
        None
    } else if jitsi_version_at(s, i) is Some {
        jitsi_version_at(s, i)
    } else {
        scan_jitsi_version(s, i + 1)
    }
}

/// The version the line's leftmost conferencing-client marker yields.
pub open spec fn spec_find_jitsi_version(s: Seq<char>) -> Option<Seq<char>> {
    scan_jitsi_version(s, 0)
}

/// End of the run of digits beginning at `i`, executable form.
fn digit_run(s: &str, i: usize) -> (r: usize)
    requires
        i <= s@.len(),
    ensures
        r as int == digit_run_end(s@, i as int),
        i <= r <= s@.len(),
{
    let n = s.unicode_len();
    let mut k = i;
    while k < n
        invariant
            i <= k <= n,
            n == s@.len(),
            digit_run_end(s@, i as int) == digit_run_end(s@, k as int),
        decreases n - k,
    {
        let c = s.get_char(k);
        if !('0' <= c && c <= '9') {
            return k;
        }
        k += 1;
    }
    k
}

/// End of the run of dots beginning at `i`, executable form.
fn dot_run(s: &str, i: usize) -> (r: usize)
    requires
        i <= s@.len(),
    ensures
        r as int == dot_run_end(s@, i as int),
        i <= r <= s@.len(),
{
    let n = s.unicode_len();
    let mut k = i;
    while k < n
        invariant
            i <= k <= n,
            n == s@.len(),
            dot_run_end(s@, i as int) == dot_run_end(s@, k as int),
        decreases n - k,
    {
        if s.get_char(k) != '.' {
            return k;
        }
        k += 1;
    }
    k
}

/// The version number at `j`, executable form.
fn try_version_at(s: &str, j: usize) -> (r: Option<String>)
    requires
        j <= s@.len(),
    ensures
        match version_at(s@, j as int) {
            Some(v) => r matches Some(rs) && rs@ == v,
            None => r is None,
        },
{
    let n = s.unicode_len();
    let k = if str_at(s, j, "Alpha%20") {
        proof {
            reveal_strlit("Alpha%20");
        }
        j + 8
    } else {
        j
    };
    let e1 = digit_run(s, k);
    if e1 == k {
        return None;
    }
    if e1 < n && s.get_char(e1) == '.' {
        let e2 = digit_run(s, e1 + 1);
        if e2 == e1 + 1 {
            return None;
        }
        let e3 = dot_run(s, e2);
        let e4 = digit_run(s, e3);
        Some(str_range(s, k, e4))
    } else {
        None
    }
}

/// The version a script-reference marker starting at `i` yields,
/// executable form.
fn try_pb_version_at(s: &str, i: usize) -> (r: Option<String>)
    requires
        i < s@.len(),
    ensures
        match pb_version_at(s@, i as int) {
            Some(v) => r matches Some(rs) && rs@ == v,
            None => r is None,
        },
{
    proof {
        reveal_strlit("js?");
    }
    let n = s.unicode_len();
    if str_at(s, i, "js/privatebin") && n - i >= 17 && str_at(s, i + 14, "js?") {
        try_version_at(s, i + 17)
    } else if str_at(s, i, "js/zerobin") && n - i >= 14 && str_at(s, i + 11, "js?") {
        try_version_at(s, i + 14)
    } else {
        None
    }
}

/// Find the version of the leftmost script-reference marker in a line.
pub fn find_version(line: &str) -> (r: Option<String>)
    ensures
        match spec_find_version(line@) {
            Some(v) => r matches Some(rs) && rs@ == v,
            None => r is None,
        },
{
    let n = line.unicode_len();
    let mut i: usize = 0;
    while i < n
        invariant
            i <= n,
            n == line@.len(),
            scan_version(line@, 0) == scan_version(line@, i as int),
        decreases n - i,
    {
        let found = try_pb_version_at(line, i);
        if found.is_some() {
            return found;
        }
        i += 1;
    }
    None
}

/// The template family at `i`, executable form.
fn try_template_at(s: &str, i: usize) -> (r: Option<PrivateBinTemplate>)
    requires
        i < s@.len(),
    ensures
        r == template_at(s@, i as int),
{
    let n = s.unicode_len();
    if str_at(s, i, "css/bootstrap") {
        proof {
            reveal_strlit("css/bootstrap");
        }
        let e = digit_run(s, i + 13);
        if e < n && s.get_char(e) == '/' {
            if e > i + 13 {
                Some(PrivateBinTemplate::Bootstrap5)
            } else {
                Some(PrivateBinTemplate::Bootstrap3)
            }
        } else {
            None
        }
    } else {
        None
    }
}

/// Find the template family of the leftmost stylesheet marker in a
/// line.
pub fn find_template(line: &str) -> (r: Option<PrivateBinTemplate>)
    ensures
        r == spec_find_template(line@),
{
    let n = line.unicode_len();
    let mut i: usize = 0;
    while i < n
        invariant
            i <= n,
            n == line@.len(),
            scan_template(line@, 0) == scan_template(line@, i as int),
        decreases n - i,
    {
        let found = try_template_at(line, i);
        if found.is_some() {
            return found;
        }
        i += 1;
    }
    None
}

/// The conferencing-client version at `i`, executable form.
fn try_jitsi_version_at(s: &str, i: usize) -> (r: Option<String>)
    requires
        i < s@.len(),
    ensures
        match jitsi_version_at(s@, i as int) {
            Some(v) => r matches Some(rs) && rs@ == v,
            None => r is None,
        },
{
    proof {
        reveal_strlit("min");
        reveal_strlit("js?v=");
    }
    let n = s.unicode_len();
    if str_at(s, i, "libs/lib-jitsi-meet") && n - i >= 29 && str_at(s, i + 20, "min") && str_at(
        s,
        i + 24,
        "js?v=",
    ) {
        let e1 = digit_run(s, i + 29);
        if e1 == i + 29 {
            return None;
        }
        let e2 = dot_run(s, e1);
        let e3 = digit_run(s, e2);
        Some(str_range(s, i + 29, e3))
    } else {
        None
    }
}

/// Find the version of the leftmost conferencing-client marker in a
/// line.
pub fn find_jitsi_version(line: &str) -> (r: Option<String>)
    ensures
        match spec_find_jitsi_version(line@) {
            Some(v) => r matches Some(rs) && rs@ == v,
            None => r is None,
        },
{
    let n = line.unicode_len();
    let mut i: usize = 0;
    while i < n
        invariant
            i <= n,
            n == line@.len(),
            scan_jitsi_version(line@, 0) == scan_jitsi_version(line@, i as int),
        decreases n - i,
    {
        let found = try_jitsi_version_at(line, i);
        if found.is_some() {
            return found;
        }
        i += 1;
    }
    None
}

/// The version the lines of a conferencing instance's page yield: the
/// first marker of the first line carrying one; a failure item
/// contributes nothing.
pub open spec fn spec_scan_jitsi_lines(
    lines: Seq<Option<Seq<char>>>,
    version: Option<Seq<char>>,
) -> Option<Seq<char>>
    decreases lines.len(),
{
    if lines.len() == 0 {
        version
    } else {
        match lines[0] {
            None => spec_scan_jitsi_lines(lines.skip(1), version),
            Some(l) => {
                let version2 = if version is None {
                    spec_find_jitsi_version(l)
                } else {
                    version
                };
                spec_scan_jitsi_lines(lines.skip(1), version2)
            },
        }
    }
}

/// Scan the read lines of a conferencing instance's page for its
/// version marker.
pub fn scan_jitsi_page(lines: &Vec<BodyLine>) -> (r: Option<String>)
    ensures
        match spec_scan_jitsi_lines(line_views(lines@), None) {
            Some(v) => r matches Some(rs) && rs@ == v,
            None => r is None,
        },
{
    let ghost gv = line_views(lines@);
    let n = lines.len();
    let mut version: Option<String> = None;
    let mut i: usize = 0;
    proof {
        assert(gv.skip(0) =~= gv);
    }
    while i < n
        invariant
            i <= n,
            n == lines@.len(),
            gv == line_views(lines@),
            ({
                let gver = match version {
                    Some(vs) => Some(vs@),
                    None => None,
                };
                spec_scan_jitsi_lines(gv, None) == spec_scan_jitsi_lines(gv.skip(i as int), gver)
            }),
        decreases n - i,
    {
        proof {
            assert(gv.skip(i as int)[0] == gv[i as int]);
            assert(gv.skip(i as int).skip(1) =~= gv.skip(i as int + 1));
        }
        match &lines[i] {
            BodyLine::DecodeError => {},
            BodyLine::Text(l) => {
                if version.is_none() {
                    version = find_jitsi_version(l.as_str());
                }
            },
        }
        i += 1;
    }
    proof {
        assert(gv.skip(n as int) =~= Seq::<Option<Seq<char>>>::empty());
    }
    version
}

/// Whether a line carries the attachment-capability marker.
pub fn has_attachment_marker(line: &str) -> (r: bool)
    ensures
        r == contains_seq(line@, ATTACHMENT_MARKER@),
{
    str_contains(line, ATTACHMENT_MARKER)
}

/// What one bounded pass over the page's lines establishes.
pub struct PageScan {
    /// The first version marker found, if any.
    pub version: Option<String>,
    /// Whether any line carries the attachment marker.
    pub attachments: bool,
    /// The first template marker found, or `Unknown`.
    pub template: PrivateBinTemplate,
}

/// The fold one pass performs: a failure item contributes nothing, a
/// text line may supply the version and template (first match wins)
/// and the attachment marker (any line).
pub open spec fn spec_scan_lines(
    lines: Seq<Option<Seq<char>>>,
    version: Option<Seq<char>>,
    attachments: bool,
    template: PrivateBinTemplate,
) -> (Option<Seq<char>>, bool, PrivateBinTemplate)
    decreases lines.len(),
{
    if lines.len() == 0 {
        (version, attachments, template)
    } else {
        match lines[0] {
            None => spec_scan_lines(lines.skip(1), version, attachments, template),
            Some(l) => {
                let version2 = if version is None {
                    spec_find_version(l)
                } else {
                    version
                };
                let attachments2 = attachments || contains_seq(l, ATTACHMENT_MARKER@);
                let template2 = if template is Unknown {
                    match spec_find_template(l) {
                        Some(t) => t,
                        None => PrivateBinTemplate::Unknown,
                    }
                } else {
                    template
                };
                spec_scan_lines(lines.skip(1), version2, attachments2, template2)
            },
        }
    }
}

/// What scanning a page's lines establishes.
pub open spec fn spec_page_scan(lines: Seq<Option<Seq<char>>>) -> (
    Option<Seq<char>>,
    bool,
    PrivateBinTemplate,
) {
    spec_scan_lines(lines, None, false, PrivateBinTemplate::Unknown)
}

/// Scan the read lines of a page for all three markers.
pub fn scan_page(lines: &Vec<BodyLine>) -> (r: PageScan)
    ensures
        ({
            let (v, a, t) = spec_page_scan(line_views(lines@));
            &&& (match v {
                Some(vs) => r.version matches Some(rs) && rs@ == vs,
                None => r.version is None,
            })
            &&& r.attachments == a
            &&& r.template == t
        }),
{
    let ghost gv = line_views(lines@);
    let n = lines.len();
    let mut version: Option<String> = None;
    let mut attachments = false;
    let mut template = PrivateBinTemplate::Unknown;
    let mut i: usize = 0;
    proof {
        assert(gv.skip(0) =~= gv);
    }
    while i < n
        invariant
            i <= n,
            n == lines@.len(),
            gv == line_views(lines@),
            ({
                let gver = match version {
                    Some(vs) => Some(vs@),
                    None => None,
                };
                spec_page_scan(gv) == spec_scan_lines(
                    gv.skip(i as int),
                    gver,
                    attachments,
                    template,
                )
            }),
        decreases n - i,
    {
        proof {
            assert(gv.skip(i as int)[0] == gv[i as int]);
            assert(gv.skip(i as int).skip(1) =~= gv.skip(i as int + 1));
        }
        match &lines[i] {
            BodyLine::DecodeError => {},
            BodyLine::Text(l) => {
                if version.is_none() {
                    version = find_version(l.as_str());
                }
                if !attachments {
                    attachments = has_attachment_marker(l.as_str());
                }
                if matches!(template, PrivateBinTemplate::Unknown) {
                    if let Some(t) = find_template(l.as_str()) {
                        template = t;
                    }
                }
            },
        }
        i += 1;
    }
    proof {
        assert(gv.skip(n as int) =~= Seq::<Option<Seq<char>>>::empty());
    }
    PageScan { version, attachments, template }
}

} // verus!
