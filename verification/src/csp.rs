//! Content-Security-Policy compliance.
//!
//! Each release line of the paste service shipped one known-correct
//! policy string; a captured policy header is compliant when it equals,
//! byte for byte, the policy of a rule whose version prefix matches.
//! One documented relaxation applies: the older template generation
//! needs no `allow-popups` sandbox token, so for it the comparison also
//! accepts a rule's policy with that token removed.  Releases before
//! 1.0 predate the header; any policy they send counts as compliant.

use vstd::prelude::*;

verus! {

use vstd::string::StrSliceExecFns;
use vstd::string::StringExecFns;
use crate::text::starts_with;
use crate::text::str_prefix;
use crate::text::str_at;
use crate::text::str_equal;

/// The currently recommended policy (older template generation).
pub const CSP_RECOMMENDATION: &'static str =
    "default-src 'none'; base-uri 'self'; form-action 'none'; manifest-src 'self'; connect-src * blob:; script-src 'self' 'wasm-unsafe-eval'; style-src 'self'; font-src 'self'; frame-ancestors 'none'; frame-src blob:; img-src 'self' data: blob:; media-src blob:; object-src blob:; sandbox allow-same-origin allow-scripts allow-forms allow-popups allow-modals allow-downloads";

/// The currently recommended policy (newer template generation).
pub const CSP_B5_RECOMMENDATION: &'static str =
    "default-src 'self'; base-uri 'self'; form-action 'none'; manifest-src 'self'; connect-src * blob:; script-src 'self' 'wasm-unsafe-eval'; style-src 'self'; font-src 'self'; frame-ancestors 'none'; frame-src blob:; img-src 'self' data: blob:; media-src blob:; object-src blob:; sandbox allow-same-origin allow-scripts allow-forms allow-modals allow-downloads";

/// Policy shipped since 1.7.6 with the older template generation.
pub const CSP_1_7_6: &'static str =
    "default-src 'none'; base-uri 'self'; form-action 'none'; manifest-src 'self'; connect-src * blob:; script-src 'self' 'wasm-unsafe-eval'; style-src 'self'; font-src 'self'; frame-ancestors 'none'; img-src 'self' data: blob:; media-src blob:; object-src blob:; sandbox allow-same-origin allow-scripts allow-forms allow-modals allow-downloads";

/// Policy shipped since 1.7.6 with the newer template generation.
pub const CSP_1_7_6_B5: &'static str =
    "default-src 'self'; base-uri 'self'; form-action 'none'; manifest-src 'self'; connect-src * blob:; script-src 'self' 'wasm-unsafe-eval'; style-src 'self'; font-src 'self'; frame-ancestors 'none'; img-src 'self' data: blob:; media-src blob:; object-src blob:; sandbox allow-same-origin allow-scripts allow-forms allow-modals allow-downloads";

/// Policy shipped since 1.7.2 with the newer template generation.
pub const CSP_1_7_2_B5: &'static str =
    "default-src 'self'; base-uri 'self'; form-action 'none'; manifest-src 'self'; connect-src * blob:; script-src 'self' 'unsafe-eval'; style-src 'self'; font-src 'self'; frame-ancestors 'none'; img-src 'self' data: blob:; media-src blob:; object-src blob:; sandbox allow-same-origin allow-scripts allow-forms allow-modals allow-downloads";

/// Policy shipped with 1.3.5.
pub const CSP_1_3_5: &'static str =
    "default-src 'none'; manifest-src 'self'; connect-src * blob:; script-src 'self' 'unsafe-eval' resource:; style-src 'self'; font-src 'self'; img-src 'self' data: blob:; media-src blob:; object-src blob:; sandbox allow-same-origin allow-scripts allow-forms allow-popups allow-modals allow-downloads";

/// Policy shipped with the later 1.3 releases.
pub const CSP_1_3_LATE: &'static str =
    "default-src 'none'; manifest-src 'self'; connect-src * blob:; script-src 'self' 'unsafe-eval'; style-src 'self'; font-src 'self'; img-src 'self' data: blob:; media-src blob:; object-src blob:; sandbox allow-same-origin allow-scripts allow-forms allow-popups allow-modals";

/// Policy shipped with 1.3.
pub const CSP_1_3: &'static str =
    "default-src 'none'; manifest-src 'self'; connect-src *; script-src 'self' 'unsafe-eval'; style-src 'self'; font-src 'self'; img-src 'self' data: blob:; media-src blob:; object-src blob:; sandbox allow-same-origin allow-scripts allow-forms allow-popups allow-modals";

/// Policy shipped with 1.2.
pub const CSP_1_2: &'static str =
    "default-src 'none'; manifest-src 'self'; connect-src *; script-src 'self'; style-src 'self'; font-src 'self'; img-src 'self' data:; media-src data:; object-src data:; Referrer-Policy: 'no-referrer'; sandbox allow-same-origin allow-scripts allow-forms allow-popups allow-modals";

/// Policy shipped with 1.1.
pub const CSP_1_1: &'static str =
    "default-src 'none'; manifest-src 'self'; connect-src *; script-src 'self'; style-src 'self'; font-src 'self'; img-src 'self' data:; referrer no-referrer;";

/// Policy shipped since 1.4.
pub const CSP_1_4: &'static str =
    "default-src 'none'; base-uri 'self'; form-action 'none'; manifest-src 'self'; connect-src * blob:; script-src 'self' 'unsafe-eval'; style-src 'self'; font-src 'self'; frame-ancestors 'none'; img-src 'self' data: blob:; media-src blob:; object-src blob:; sandbox allow-same-origin allow-scripts allow-forms allow-popups allow-modals allow-downloads";

/// The sandbox token the older template generation does not need.
pub const POPUPS_TOKEN: &'static str = " allow-popups";

/// Which UI generation a page uses, as far as its stylesheet path shows.
#[derive(Clone, Copy, PartialEq, Eq, Debug, Structural)]
pub enum PrivateBinTemplate {
    Bootstrap3,
    Bootstrap5,
    Unknown,
}

/// `s` with every occurrence of `p` removed, scanning left to right
/// without overlap.
pub open spec fn spec_remove_all(s: Seq<char>, p: Seq<char>) -> Seq<char>
    decreases s.len(),
    when p.len() > 0
{
    if s.len() < p.len() {
        s
    } else if s.take(p.len() as int) == p {
        spec_remove_all(s.skip(p.len() as int), p)
    } else {
        seq![s[0]] + spec_remove_all(s.skip(1), p)
    }
}

/// Remove every occurrence of `p` from `s`.
pub fn remove_all(s: &str, p: &str) -> (r: String)
    requires
        p@.len() > 0,
    ensures
        r@ == spec_remove_all(s@, p@),
{
    let sn = s.unicode_len();
    let pn = p.unicode_len();
    let mut out = String::new();
    let mut i: usize = 0;
    proof {
        assert(s@.skip(0) =~= s@);
        assert(Seq::<char>::empty() + spec_remove_all(s@, p@) =~= spec_remove_all(s@, p@));
    }
    while i < sn
        invariant
            i <= sn,
            sn == s@.len(),
            pn == p@.len(),
            pn > 0,
            out@ + spec_remove_all(s@.skip(i as int), p@) == spec_remove_all(s@, p@),
        decreases sn - i,
    {
        let ghost rest = s@.skip(i as int);
        if str_at(s, i, p) {
            proof {
                assert(rest.take(pn as int) =~= s@.subrange(i as int, i as int + pn as int));
                assert(rest.skip(pn as int) =~= s@.skip(i as int + pn as int));
            }
            i += pn;
        } else {
            proof {
                if rest.len() >= pn {
                    assert(rest.take(pn as int) =~= s@.subrange(i as int, i as int + pn as int));
                }
                assert(rest[0] == s@[i as int]);
                assert(rest.skip(1) =~= s@.skip(i as int + 1));
            }
            let piece = s.substring_char(i, i + 1);
            proof {
                assert(piece@ =~= seq![s@[i as int]]);
            }
            out.append(piece);
            i += 1;
        }
    }
    proof {
        assert(s@.skip(sn as int) =~= Seq::<char>::empty());
        assert(out@ + Seq::<char>::empty() =~= out@);
    }
    out
}

/// Whether one table rule accepts the captured policy: the version must
/// carry the rule's prefix, and the policy must equal the rule's policy
/// or, for the older template generation, that policy without the
/// `allow-popups` token.
pub open spec fn spec_rule_matches(
    version: Seq<char>,
    template: PrivateBinTemplate,
    policy: Seq<char>,
    prefix: Seq<char>,
    rule_policy: Seq<char>,
) -> bool {
    starts_with(version, prefix) && (policy == rule_policy || (template
        == PrivateBinTemplate::Bootstrap3 && policy == spec_remove_all(
        rule_policy,
        POPUPS_TOKEN@,
    )))
}

/// Evaluate one table rule.
fn rule_matches(
    version: &str,
    template: PrivateBinTemplate,
    policy: &str,
    prefix: &str,
    rule_policy: &str,
) -> (r: bool)
    ensures
        r == spec_rule_matches(version@, template, policy@, prefix@, rule_policy@),
{
    proof {
        reveal_strlit(" allow-popups");
    }
    if !str_prefix(version, prefix) {
        return false;
    }
    if str_equal(policy, rule_policy) {
        return true;
    }
    if matches!(template, PrivateBinTemplate::Bootstrap3) {
        let relaxed = remove_all(rule_policy, POPUPS_TOKEN);
        return str_equal(policy, relaxed.as_str());
    }
    false
}

/// Whether a captured policy counts as compliant for the given version
/// and template generation: some table rule accepts it, or the version
/// predates the header (a `0.` release) and any non-empty policy counts.
pub open spec fn spec_csp_compliant(
    version: Seq<char>,
    template: PrivateBinTemplate,
    policy: Seq<char>,
) -> bool {
    policy.len() > 0 && (starts_with(version, "0."@) || spec_rule_matches(
        version,
        template,
        policy,
        "1.7.8"@,
        CSP_RECOMMENDATION@,
    ) || spec_rule_matches(version, template, policy, "1.7.8"@, CSP_B5_RECOMMENDATION@)
        || spec_rule_matches(version, template, policy, "1.7.7"@, CSP_RECOMMENDATION@)
        || spec_rule_matches(version, template, policy, "1.7.7"@, CSP_B5_RECOMMENDATION@)
        || spec_rule_matches(version, template, policy, "1.7.6"@, CSP_1_7_6@)
        || spec_rule_matches(version, template, policy, "1.7.6"@, CSP_1_7_6_B5@)
        || spec_rule_matches(version, template, policy, "1.7."@, CSP_1_7_2_B5@)
        || spec_rule_matches(version, template, policy, "1.3.5"@, CSP_1_3_5@)
        || spec_rule_matches(version, template, policy, "1.3."@, CSP_1_3_LATE@)
        || spec_rule_matches(version, template, policy, "1.3"@, CSP_1_3@)
        || spec_rule_matches(version, template, policy, "1.2"@, CSP_1_2@)
        || spec_rule_matches(version, template, policy, "1.1"@, CSP_1_1@)
        || spec_rule_matches(version, template, policy, "1."@, CSP_1_4@))
}

/// Compare a captured policy header against the historical policy table.
pub fn csp_compliant(version: &str, template: PrivateBinTemplate, policy: &str) -> (r: bool)
    ensures
        r == spec_csp_compliant(version@, template, policy@),
{
    if policy.unicode_len() == 0 {
        return false;
    }
    if str_prefix(version, "0.") {
        return true;
    }
    rule_matches(version, template, policy, "1.7.8", CSP_RECOMMENDATION) || rule_matches(
        version,
        template,
        policy,
        "1.7.8",
        CSP_B5_RECOMMENDATION,
    ) || rule_matches(version, template, policy, "1.7.7", CSP_RECOMMENDATION) || rule_matches(
        version,
        template,
        policy,
        "1.7.7",
        CSP_B5_RECOMMENDATION,
    ) || rule_matches(version, template, policy, "1.7.6", CSP_1_7_6) || rule_matches(
        version,
        template,
        policy,
        "1.7.6",
        CSP_1_7_6_B5,
    ) || rule_matches(version, template, policy, "1.7.", CSP_1_7_2_B5) || rule_matches(
        version,
        template,
        policy,
        "1.3.5",
        CSP_1_3_5,
    ) || rule_matches(version, template, policy, "1.3.", CSP_1_3_LATE) || rule_matches(
        version,
        template,
        policy,
        "1.3",
        CSP_1_3,
    ) || rule_matches(version, template, policy, "1.2", CSP_1_2) || rule_matches(
        version,
        template,
        policy,
        "1.1",
        CSP_1_1,
    ) || rule_matches(version, template, policy, "1.", CSP_1_4)
}

} // verus!
