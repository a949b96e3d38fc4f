//! The robots-compliance gate.
//!
//! Before any feature probe, the instance's `robots.txt` is consulted:
//! if a rule group addressed to this bot's exact user-agent disallows
//! the root, validation stops and the instance must never be added.
//! An absent, unreachable or non-200 robots file permits indexing.

use vstd::prelude::*;

verus! {

use vstd::string::StrSliceExecFns;
use vstd::string::StringExecFns;
use crate::text::starts_with;
use crate::text::lemma_starts_with_trans;
use crate::text::str_prefix;
use crate::text::str_suffix;
use crate::text::str_copy;
use crate::reader::BodyLine;
use crate::reader::line_views;
use crate::reader::spec_body_lines;
use crate::reader::read_lines;
use crate::reader::MAX_LINE_COUNT;
use crate::errors::ValidationError;

/// Prefix under which a line addresses some crawler.
pub const USER_AGENT_PREFIX: &'static str = "User-agent: ";

/// The address line of this bot.
pub const BOT_USER_AGENT_LINE: &'static str = "User-agent: PrivateBinDirectoryBot";

/// The directive that disallows the root.
pub const DISALLOW_ALL: &'static str = "Disallow: /";

/// One pass over the read robots lines.  A rule group is a run of
/// user-agent lines followed by its directives; `addressed` carries
/// whether the group being read names this bot, and `in_directives`
/// tells a new group's first user-agent line from a further address of
/// the same group.  A `Disallow: /` directive read while the group
/// addresses the bot disallows; a decode failure ends the scan.
pub open spec fn spec_robots_scan(
    lines: Seq<Option<Seq<char>>>,
    addressed: bool,
    in_directives: bool,
) -> bool
    decreases lines.len(),
{
    if lines.len() == 0 {
        false
    } else {
        match lines[0] {
            None => false,
            Some(l) => {
                if starts_with(l, USER_AGENT_PREFIX@) {
                    let bot = starts_with(l, BOT_USER_AGENT_LINE@);
                    spec_robots_scan(
                        lines.skip(1),
                        if in_directives {
                            bot
                        } else {
                            addressed || bot
                        },
                        false,
                    )
                } else if addressed && starts_with(l, DISALLOW_ALL@) {
                    true
                } else {
                    spec_robots_scan(lines.skip(1), addressed, true)
                }
            },
        }
    }
}

/// Whether the read robots lines disallow this bot: some rule group
/// addressed to the bot's exact user-agent carries a `Disallow: /`
/// directive.
pub open spec fn spec_robots_disallows(lines: Seq<Option<Seq<char>>>) -> bool {
    spec_robots_scan(lines, false, false)
}

/// Scan read robots lines for a disallowal addressed to this bot.
pub fn robots_disallows(lines: &Vec<BodyLine>) -> (r: bool)
    ensures
        r == spec_robots_disallows(line_views(lines@)),
{
    let ghost gv = line_views(lines@);
    let n = lines.len();
    let mut addressed = false;
    let mut in_directives = false;
    let mut i: usize = 0;
    proof {
        assert(gv.skip(0) =~= gv);
    }
    while i < n
        invariant
            i <= n,
            n == lines@.len(),
            gv == line_views(lines@),
            spec_robots_disallows(gv) == spec_robots_scan(
                gv.skip(i as int),
                addressed,
                in_directives,
            ),
        decreases n - i,
    {
        proof {
            assert(gv.skip(i as int)[0] == gv[i as int]);
            assert(gv.skip(i as int).skip(1) =~= gv.skip(i as int + 1));
        }
        match &lines[i] {
            BodyLine::DecodeError => {
                return false;
            },
            BodyLine::Text(l) => {
                if str_prefix(l.as_str(), USER_AGENT_PREFIX) {
                    let bot = str_prefix(l.as_str(), BOT_USER_AGENT_LINE);
                    addressed = if in_directives {
                        bot
                    } else {
                        addressed || bot
                    };
                    in_directives = false;
                } else {
                    if addressed && str_prefix(l.as_str(), DISALLOW_ALL) {
                        return true;
                    }
                    in_directives = true;
                }
            },
        }
        i += 1;
    }
    proof {
        assert(gv.skip(n as int) =~= Seq::<Option<Seq<char>>>::empty());
    }
    false
}

/// A `Disallow: /` line does not open a rule group.
proof fn lemma_disallow_is_no_address(dis: Seq<char>)
    requires
        starts_with(dis, DISALLOW_ALL@),
    ensures
        !starts_with(dis, USER_AGENT_PREFIX@),
{
    reveal_strlit("Disallow: /");
    reveal_strlit("User-agent: ");
    if starts_with(dis, USER_AGENT_PREFIX@) {
        assert(dis.take(11)[0] == dis[0]);
        assert(dis.take(12)[0] == dis[0]);
    }
}

/// Once the group being read addresses the bot, directive lines before
/// the `Disallow: /` line do not save it: the scan reaches that line
/// and refuses.
proof fn lemma_robots_group(mid: Seq<Option<Seq<char>>>, dis: Seq<char>, post: Seq<
    Option<Seq<char>>,
>)
    requires
        forall|i: int|
            0 <= i < mid.len() ==> ((#[trigger] mid[i]) matches Some(l) && !starts_with(
                l,
                USER_AGENT_PREFIX@,
            )),
        starts_with(dis, DISALLOW_ALL@),
    ensures
        forall|d: bool| #[trigger] spec_robots_scan(mid + seq![Some(dis)] + post, true, d),
    decreases mid.len(),
{
    let lines = mid + seq![Some(dis)] + post;
    lemma_disallow_is_no_address(dis);
    if mid.len() == 0 {
        assert forall|d: bool| #[trigger] spec_robots_scan(lines, true, d) by {
            assert(lines[0] == Some(dis));
        }
    } else {
        assert forall|i: int|
            0 <= i < mid.skip(1).len() implies ((#[trigger] mid.skip(1)[i]) matches Some(l)
            && !starts_with(l, USER_AGENT_PREFIX@)) by {
            assert(mid.skip(1)[i] == mid[i + 1]);
        }
        lemma_robots_group(mid.skip(1), dis, post);
        assert forall|d: bool| #[trigger] spec_robots_scan(lines, true, d) by {
            assert(lines[0] == mid[0]);
            assert(lines.skip(1) =~= mid.skip(1) + seq![Some(dis)] + post);
            let l = mid[0]->0;
            if !starts_with(l, DISALLOW_ALL@) {
                assert(spec_robots_scan(mid.skip(1) + seq![Some(dis)] + post, true, true));
            }
        }
    }
}

/// Decoded lines ahead of a scan that refuses from every state cannot
/// save it: whatever groups they form, the scan either refuses early
/// or reaches the refusing remainder.
proof fn lemma_robots_scan_through(pre: Seq<Option<Seq<char>>>, tail: Seq<Option<Seq<char>>>)
    requires
        forall|i: int| 0 <= i < pre.len() ==> (#[trigger] pre[i]) is Some,
        forall|a: bool, d: bool| #[trigger] spec_robots_scan(tail, a, d),
    ensures
        forall|a: bool, d: bool| #[trigger] spec_robots_scan(pre + tail, a, d),
    decreases pre.len(),
{
    if pre.len() == 0 {
        assert(pre + tail =~= tail);
    } else {
        assert forall|i: int| 0 <= i < pre.skip(1).len() implies (#[trigger] pre.skip(1)[i])
            is Some by {
            assert(pre.skip(1)[i] == pre[i + 1]);
        }
        lemma_robots_scan_through(pre.skip(1), tail);
        assert forall|a: bool, d: bool| #[trigger] spec_robots_scan(pre + tail, a, d) by {
            let lines = pre + tail;
            assert(lines[0] == pre[0]);
            assert(lines.skip(1) =~= pre.skip(1) + tail);
            let l = pre[0]->0;
            if starts_with(l, USER_AGENT_PREFIX@) {
                let bot = starts_with(l, BOT_USER_AGENT_LINE@);
                assert(spec_robots_scan(
                    pre.skip(1) + tail,
                    if d {
                        bot
                    } else {
                        a || bot
                    },
                    false,
                ));
            } else if a && starts_with(l, DISALLOW_ALL@) {
            } else {
                assert(spec_robots_scan(pre.skip(1) + tail, a, true));
            }
        }
    }
}

/// Law: a robots file with a rule group addressed to the bot's exact
/// user-agent that carries a `Disallow: /` directive always disallows —
/// whatever other directives stand between the address and the
/// directive, and whatever rule groups for other agents stand before
/// or after.  The lines up to the directive must have decoded, since a
/// decode failure ends the scan.
pub proof fn lemma_disallow_all_is_final(
    pre: Seq<Option<Seq<char>>>,
    ua: Seq<char>,
    mid: Seq<Option<Seq<char>>>,
    dis: Seq<char>,
    post: Seq<Option<Seq<char>>>,
)
    requires
        forall|i: int| 0 <= i < pre.len() ==> (#[trigger] pre[i]) is Some,
        starts_with(ua, BOT_USER_AGENT_LINE@),
        forall|i: int|
            0 <= i < mid.len() ==> ((#[trigger] mid[i]) matches Some(l) && !starts_with(
                l,
                USER_AGENT_PREFIX@,
            )),
        starts_with(dis, DISALLOW_ALL@),
    ensures
        spec_robots_disallows(pre + seq![Some(ua)] + mid + seq![Some(dis)] + post),
{
    let tail = seq![Some(ua)] + mid + seq![Some(dis)] + post;
    // the address line opens (or extends) a group naming the bot
    assert(starts_with(BOT_USER_AGENT_LINE@, USER_AGENT_PREFIX@)) by {
        reveal_strlit("User-agent: PrivateBinDirectoryBot");
        reveal_strlit("User-agent: ");
        assert(BOT_USER_AGENT_LINE@.take(12) =~= USER_AGENT_PREFIX@);
    }
    lemma_starts_with_trans(ua, BOT_USER_AGENT_LINE@, USER_AGENT_PREFIX@);
    lemma_robots_group(mid, dis, post);
    assert forall|a: bool, d: bool| #[trigger] spec_robots_scan(tail, a, d) by {
        assert(tail[0] == Some(ua));
        assert(tail.skip(1) =~= mid + seq![Some(dis)] + post);
        assert(spec_robots_scan(mid + seq![Some(dis)] + post, true, false));
    }
    lemma_robots_scan_through(pre, tail);
    assert(pre + seq![Some(ua)] + mid + seq![Some(dis)] + post =~= pre + tail);
}

/// The robots file's location: `robots.txt` under the instance URL.
pub fn robots_url(url: &str) -> (r: String)
    ensures
        crate::text::ends_with(url@, "/"@) ==> r@ == url@ + "robots.txt"@,
        !crate::text::ends_with(url@, "/"@) ==> r@ == url@ + "/robots.txt"@,
{
    let mut r = String::from_str(url);
    if str_suffix(url, "/") {
        r.append("robots.txt");
    } else {
        r.append("/robots.txt");
    }
    r
}

/// What fetching the robots file produced, as plain values.
pub enum RobotsFetch {
    /// The request failed or timed out.
    Unreachable,
    /// An answer; the body is `None` when it could not be read.
    Response { status: u16, body: Option<Vec<u8>> },
}

/// Whether a robots fetch outcome forbids indexing the instance.
pub open spec fn spec_robots_forbids(fetch: RobotsFetch) -> bool {
    fetch matches RobotsFetch::Response { status, body } && status == 200 && (body matches Some(b)
        && spec_robots_disallows(spec_body_lines(b@, MAX_LINE_COUNT as nat)))
}

/// The robots gate: pass, or stop validation for good.
///
/// Only a readable robots file served with status 200 whose rules
/// disallow this bot yields `NotAllowed`; an unreachable host, another
/// status, or an unreadable body permits indexing.
pub fn robots_gate(url: &String, fetch: &RobotsFetch) -> (r: Result<(), ValidationError>)
    ensures
        r is Err <==> spec_robots_forbids(*fetch),
        r matches Err(e) ==> e matches ValidationError::NotAllowed { url: u } && u@ == url@,
{
    match fetch {
        RobotsFetch::Unreachable => Ok(()),
        RobotsFetch::Response { status, body } => {
            if *status != 200 {
                return Ok(());
            }
            match body {
                None => Ok(()),
                Some(bytes) => {
                    let lines = read_lines(bytes);
                    if robots_disallows(&lines) {
                        Err(ValidationError::NotAllowed { url: str_copy(url.as_str()) })
                    } else {
                        Ok(())
                    }
                },
            }
        },
    }
}

} // verus!
