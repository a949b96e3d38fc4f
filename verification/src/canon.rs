//! URL canonicalization.
//!
//! A candidate URL is reduced to its canonical form before any probe is
//! issued: the query string and fragment are dropped, a trailing
//! `index.php` is removed, duplicate slashes in the path collapse to
//! one, and a slash directly after the authority (the web root) is
//! dropped.  The canonical form is the identity under which an instance
//! is stored, so two spellings of the same root must agree here.

use vstd::prelude::*;

verus! {

use vstd::string::StrSliceExecFns;
use vstd::string::StringExecFns;
use crate::text::starts_with;
use crate::text::ends_with;
use crate::text::char_index;
use crate::text::char_count;
use crate::text::lemma_char_index;
use crate::text::str_char_index;
use crate::text::str_suffix;
use crate::text::str_range;

/// A raw URL the validator accepts: plain HTTP or HTTPS.
pub open spec fn is_http_url(s: Seq<char>) -> bool {
    starts_with(s, "http://"@) || starts_with(s, "https://"@)
}

/// Everything from the first `?` on removed.
pub open spec fn strip_query(s: Seq<char>) -> Seq<char> {
    s.take(char_index(s, '?'))
}

/// Everything from the first `#` on removed.
pub open spec fn strip_fragment(s: Seq<char>) -> Seq<char> {
    s.take(char_index(s, '#'))
}

/// A trailing `index.php` removed.
pub open spec fn strip_index_suffix(s: Seq<char>) -> Seq<char> {
    if ends_with(s, "index.php"@) {
        s.take(s.len() - "index.php"@.len())
    } else {
        s
    }
}

/// Runs of slashes reduced to a single slash.
pub open spec fn collapse_slashes(s: Seq<char>) -> Seq<char>
    decreases s.len(),
{
    if s.len() == 0 {
        Seq::<char>::empty()
    } else if s.len() >= 2 && s[0] == '/' && s[1] == '/' {
        collapse_slashes(s.skip(1))
    } else {
        seq![s[0]] + collapse_slashes(s.skip(1))
    }
}

/// The first seven characters (the scheme part, which for HTTP URLs ends
/// in the authority's leading slashes) kept as they are, duplicate
/// slashes collapsed in the remainder.
pub open spec fn collapse_path(s: Seq<char>) -> Seq<char> {
    s.take(7) + collapse_slashes(s.skip(7))
}

/// All trailing slashes removed.
pub open spec fn trim_trailing_slashes(s: Seq<char>) -> Seq<char>
    decreases s.len(),
{
    if s.len() > 0 && s[s.len() - 1] == '/' {
        trim_trailing_slashes(s.drop_last())
    } else {
        s
    }
}

/// Trailing slashes removed exactly when the URL is a bare web root
/// (three slashes in all: two after the scheme, one at the root).
pub open spec fn trim_root_slash(s: Seq<char>) -> Seq<char> {
    if char_count(s, '/') == 3 {
        trim_trailing_slashes(s)
    } else {
        s
    }
}

/// The canonical form of a raw HTTP or HTTPS URL.
pub open spec fn spec_strip_url(s: Seq<char>) -> Seq<char> {
    trim_root_slash(collapse_path(strip_index_suffix(strip_fragment(strip_query(s)))))
}

/// The scheme prefixes contain neither `?` nor `#` nor an `i`, so the
/// stages that cut at such characters leave the prefix in place.
proof fn lemma_prefix_chars()
    ensures
        "http://"@.len() == 7,
        "https://"@.len() == 8,
        forall|j: int| 0 <= j < 7 ==> "http://"@[j] != '?' && "http://"@[j] != '#',
        forall|j: int| 0 <= j < 8 ==> "https://"@[j] != '?' && "https://"@[j] != '#',
        forall|j: int| 0 <= j < 7 ==> "http://"@[j] != 'i',
        forall|j: int| 0 <= j < 8 ==> "https://"@[j] != 'i',
{
    reveal_strlit("http://");
    reveal_strlit("https://");
}

/// The scheme prefix survives removing the query part.
proof fn lemma_strip_query_prefix(s: Seq<char>)
    requires
        is_http_url(s),
    ensures
        is_http_url(strip_query(s)),
        strip_query(s).len() >= 7,
{
    lemma_prefix_chars();
    lemma_char_index(s, '?');
    let n = char_index(s, '?');
    if starts_with(s, "https://"@) {
        assert forall|j: int| 0 <= j < 8 implies s[j] != '?' by {
            assert(s.take(8)[j] == s[j]);
        }
        assert(n >= 8);
        assert(s.take(n).take(8) =~= s.take(8));
    } else {
        assert forall|j: int| 0 <= j < 7 implies s[j] != '?' by {
            assert(s.take(7)[j] == s[j]);
        }
        assert(n >= 7);
        assert(s.take(n).take(7) =~= s.take(7));
    }
}

/// The scheme prefix survives removing the fragment part.
proof fn lemma_strip_fragment_prefix(s: Seq<char>)
    requires
        is_http_url(s),
    ensures
        is_http_url(strip_fragment(s)),
        strip_fragment(s).len() >= 7,
{
    lemma_prefix_chars();
    lemma_char_index(s, '#');
    let n = char_index(s, '#');
    if starts_with(s, "https://"@) {
        assert forall|j: int| 0 <= j < 8 implies s[j] != '#' by {
            assert(s.take(8)[j] == s[j]);
        }
        assert(n >= 8);
        assert(s.take(n).take(8) =~= s.take(8));
    } else {
        assert forall|j: int| 0 <= j < 7 implies s[j] != '#' by {
            assert(s.take(7)[j] == s[j]);
        }
        assert(n >= 7);
        assert(s.take(n).take(7) =~= s.take(7));
    }
}

/// The scheme prefix survives removing a trailing `index.php`: a string
/// carrying both the prefix and that suffix is at least 16 characters
/// long, so the cut lies beyond the prefix.
proof fn lemma_strip_index_prefix(s: Seq<char>)
    requires
        is_http_url(s),
    ensures
        is_http_url(strip_index_suffix(s)),
        strip_index_suffix(s).len() >= 7,
{
    lemma_prefix_chars();
    reveal_strlit("index.php");
    if ends_with(s, "index.php"@) {
        let n = s.len() as int;
        assert(s[n - 9] == 'i') by {
            assert(s.skip(n - 9)[0] == s[n - 9]);
        }
        if starts_with(s, "https://"@) {
            assert forall|j: int| 0 <= j < 8 implies s[j] == "https://"@[j] by {
                assert(s.take(8)[j] == s[j]);
            }
            assert(n - 9 >= 8);
            assert(s.take(n - 9).take(8) =~= s.take(8));
        } else {
            assert forall|j: int| 0 <= j < 7 implies s[j] == "http://"@[j] by {
                assert(s.take(7)[j] == s[j]);
            }
            assert(n - 9 >= 7);
            assert(s.take(n - 9).take(7) =~= s.take(7));
        }
    }
}

/// Canonicalize a raw URL.
///
/// Drops the query string and fragment, a trailing `index.php`, and
/// duplicate slashes in the path, and removes the trailing slash of a
/// bare web root, so that all spellings of the same root produce the
/// same canonical URL.
pub fn strip_url(url: String) -> (r: String)
    requires
        is_http_url(url@),
    ensures
        r@ == spec_strip_url(url@),
{
    proof {
        lemma_strip_query_prefix(url@);
        lemma_strip_fragment_prefix(strip_query(url@));
        lemma_strip_index_prefix(strip_fragment(strip_query(url@)));
        lemma_char_index(url@, '?');
    }
    // drop the query
    let u = url.as_str();
    let q = str_char_index(u, '?');
    let s1 = str_range(u, 0, q);
    proof {
        assert(s1@ =~= strip_query(url@));
        lemma_char_index(s1@, '#');
    }
    // drop the fragment
    let h = str_char_index(s1.as_str(), '#');
    let s2 = str_range(s1.as_str(), 0, h);
    proof {
        assert(s2@ =~= strip_fragment(strip_query(url@)));
        reveal_strlit("index.php");
    }
    // drop a trailing index.php
    let s3 = if str_suffix(s2.as_str(), "index.php") {
        let n2 = s2.as_str().unicode_len();
        str_range(s2.as_str(), 0, n2 - 9)
    } else {
        s2
    };
    proof {
        assert(s3@ =~= strip_index_suffix(strip_fragment(strip_query(url@))));
    }
    let ghost gs3 = s3@;
    // collapse duplicate slashes after the scheme part
    let s3s = s3.as_str();
    let n3 = s3s.unicode_len();
    let mut out = str_range(s3s, 0, 7);
    let mut i: usize = 7;
    proof {
        assert(gs3.skip(7) =~= gs3.skip(7));
    }
    while i < n3
        invariant
            7 <= i <= n3,
            n3 == gs3.len(),
            s3s@ == gs3,
            out@ + collapse_slashes(gs3.skip(i as int)) == collapse_path(gs3),
        decreases n3 - i,
    {
        let ghost rest = gs3.skip(i as int);
        proof {
            assert(rest[0] == gs3[i as int]);
            assert(rest.skip(1) =~= gs3.skip(i as int + 1));
        }
        if s3s.get_char(i) == '/' && i + 1 < n3 && s3s.get_char(i + 1) == '/' {
            proof {
                assert(rest[1] == gs3[i as int + 1]);
                assert(collapse_slashes(rest) == collapse_slashes(gs3.skip(i as int + 1)));
            }
        } else {
            proof {
                if rest.len() >= 2 {
                    assert(rest[1] == gs3[i as int + 1]);
                }
                assert(collapse_slashes(rest) == seq![gs3[i as int]] + collapse_slashes(
                    gs3.skip(i as int + 1),
                ));
            }
            let piece = s3s.substring_char(i, i + 1);
            proof {
                assert(piece@ =~= seq![gs3[i as int]]);
            }
            out.append(piece);
        }
        i += 1;
    }
    proof {
        assert(gs3.skip(n3 as int) =~= Seq::<char>::empty());
        assert(out@ + Seq::<char>::empty() =~= out@);
        assert(out@ == collapse_path(gs3));
    }
    let ghost gs4 = out@;
    // count the slashes to recognize a bare web root
    let outs = out.as_str();
    let n4 = outs.unicode_len();
    let mut slashes: usize = 0;
    let mut j: usize = 0;
    proof {
        assert(gs4.skip(0) =~= gs4);
    }
    while j < n4
        invariant
            j <= n4,
            n4 == gs4.len(),
            outs@ == gs4,
            out@ == gs4,
            slashes <= j,
            char_count(gs4, '/') == slashes + char_count(gs4.skip(j as int), '/'),
        decreases n4 - j,
    {
        proof {
            assert(gs4.skip(j as int)[0] == gs4[j as int]);
            assert(gs4.skip(j as int).skip(1) =~= gs4.skip(j as int + 1));
        }
        if outs.get_char(j) == '/' {
            slashes += 1;
        }
        j += 1;
    }
    proof {
        assert(gs4.skip(n4 as int) =~= Seq::<char>::empty());
        assert(char_count(gs4, '/') == slashes);
    }
    if slashes == 3 {
        // a bare web root: drop the trailing slash
        let mut k: usize = n4;
        proof {
            assert(gs4.take(n4 as int) =~= gs4);
        }
        while k > 0 && outs.get_char(k - 1) == '/'
            invariant
                k <= n4,
                n4 == gs4.len(),
                outs@ == gs4,
                out@ == gs4,
                trim_trailing_slashes(gs4) == trim_trailing_slashes(gs4.take(k as int)),
            decreases k,
        {
            proof {
                assert(gs4.take(k as int)[k - 1] == gs4[k as int - 1]);
                assert(gs4.take(k as int).drop_last() =~= gs4.take(k as int - 1));
            }
            k -= 1;
        }
        proof {
            if k == 0 {
                assert(gs4.take(0) =~= Seq::<char>::empty());
            }
            assert(trim_trailing_slashes(gs4.take(k as int)) == gs4.take(k as int));
        }
        let r = str_range(outs, 0, k);
        proof {
            assert(r@ == spec_strip_url(url@));
        }
        r
    } else {
        proof {
            assert(out@ == spec_strip_url(url@));
        }
        out
    }
}

/// Characters absent from `s` stay absent after collapsing slashes.
proof fn lemma_collapse_no_char(s: Seq<char>, c: char)
    requires
        forall|j: int| 0 <= j < s.len() ==> s[j] != c,
    ensures
        forall|j: int|
            0 <= j < collapse_slashes(s).len() ==> collapse_slashes(s)[j] != c,
    decreases s.len(),
{
    if s.len() == 0 {
    } else {
        assert forall|j: int| 0 <= j < s.skip(1).len() implies s.skip(1)[j] != c by {
            assert(s.skip(1)[j] == s[j + 1]);
        }
        lemma_collapse_no_char(s.skip(1), c);
        if s.len() >= 2 && s[0] == '/' && s[1] == '/' {
        } else {
            assert forall|j: int|
                0 <= j < collapse_slashes(s).len() implies collapse_slashes(s)[j] != c by {
                if j > 0 {
                    assert(collapse_slashes(s)[j] == collapse_slashes(s.skip(1))[j - 1]);
                }
            }
        }
    }
}

/// When `s` does not begin with a duplicate slash, collapsing keeps its
/// first character in place.
proof fn lemma_collapse_first(s: Seq<char>)
    requires
        s.len() > 0,
        !(s.len() >= 2 && s[0] == '/' && s[1] == '/'),
    ensures
        collapse_slashes(s).len() > 0,
        collapse_slashes(s)[0] == s[0],
{
}

/// Collapsing leaves no two adjacent slashes behind.
proof fn lemma_collapse_no_double(s: Seq<char>)
    ensures
        forall|j: int|
            0 <= j && j + 1 < collapse_slashes(s).len() ==> !(#[trigger] collapse_slashes(s)[j]
                == '/' && collapse_slashes(s)[j + 1] == '/'),
    decreases s.len(),
{
    if s.len() == 0 {
    } else {
        lemma_collapse_no_double(s.skip(1));
        if s.len() >= 2 && s[0] == '/' && s[1] == '/' {
            assert forall|j: int|
                0 <= j && j + 1 < collapse_slashes(s).len() implies !(#[trigger] collapse_slashes(
                s,
            )[j] == '/' && collapse_slashes(s)[j + 1] == '/') by {
                assert(collapse_slashes(s)[j] == collapse_slashes(s.skip(1))[j]);
                assert(collapse_slashes(s)[j + 1] == collapse_slashes(s.skip(1))[j + 1]);
            }
        } else {
            let t = collapse_slashes(s.skip(1));
            assert forall|j: int|
                0 <= j && j + 1 < collapse_slashes(s).len() implies !(#[trigger] collapse_slashes(
                s,
            )[j] == '/' && collapse_slashes(s)[j + 1] == '/') by {
                if j == 0 {
                    assert(collapse_slashes(s)[1] == t[0]);
                    if s[0] == '/' {
                        assert(s.skip(1)[0] == s[1]);
                        lemma_collapse_first(s.skip(1));
                    }
                } else {
                    assert(collapse_slashes(s)[j] == t[j - 1]);
                    assert(collapse_slashes(s)[j + 1] == t[j]);
                }
            }
        }
    }
}

/// A string with no duplicate slashes is a fixed point of collapsing.
proof fn lemma_collapse_identity(s: Seq<char>)
    requires
        forall|j: int| 0 <= j && j + 1 < s.len() ==> !(#[trigger] s[j] == '/' && s[j + 1] == '/'),
    ensures
        collapse_slashes(s) == s,
    decreases s.len(),
{
    if s.len() == 0 {
        assert(collapse_slashes(s) =~= s);
    } else {
        assert forall|j: int|
            0 <= j && j + 1 < s.skip(1).len() implies !(#[trigger] s.skip(1)[j] == '/' && s.skip(
            1,
        )[j + 1] == '/') by {
            assert(s.skip(1)[j] == s[j + 1]);
            assert(s.skip(1)[j + 1] == s[j + 2]);
        }
        lemma_collapse_identity(s.skip(1));
        assert(collapse_slashes(s) =~= s);
    }
}

/// Trimming trailing slashes yields a prefix of the original string.
proof fn lemma_trim_prefix(s: Seq<char>)
    ensures
        trim_trailing_slashes(s).len() <= s.len(),
        trim_trailing_slashes(s) == s.take(trim_trailing_slashes(s).len() as int),
    decreases s.len(),
{
    if s.len() > 0 && s[s.len() - 1] == '/' {
        lemma_trim_prefix(s.drop_last());
        let k = trim_trailing_slashes(s).len() as int;
        assert(s.drop_last() =~= s.take(s.len() - 1));
        assert(s.take(s.len() - 1).take(k) =~= s.take(k));
    } else {
        assert(s.take(s.len() as int) =~= s);
    }
}

/// Trimming trailing slashes leaves no trailing slash.
proof fn lemma_trim_no_trailing(s: Seq<char>)
    ensures
        trim_trailing_slashes(s).len() == 0 || trim_trailing_slashes(s)[trim_trailing_slashes(
            s,
        ).len() - 1] != '/',
    decreases s.len(),
{
    if s.len() > 0 && s[s.len() - 1] == '/' {
        lemma_trim_no_trailing(s.drop_last());
    }
}

/// A character that occurs nowhere has its first index at the end.
proof fn lemma_absent_char_index(s: Seq<char>, c: char)
    requires
        forall|j: int| 0 <= j < s.len() ==> s[j] != c,
    ensures
        char_index(s, c) == s.len(),
{
    crate::text::lemma_char_index_unique(s, c, s.len() as int);
}

/// Canonicalization is idempotent: canonicalizing a canonical URL
/// changes nothing.  The two inputs this does not hold for are left out
/// by the preconditions: a URL whose canonical form still ends in
/// `index.php` (a second pass strips it again), and one whose canonical
/// form lost the scheme prefix because the path was nothing but slashes.
pub proof fn lemma_strip_url_idempotent(u: Seq<char>)
    requires
        is_http_url(u),
        is_http_url(spec_strip_url(u)),
        !ends_with(spec_strip_url(u), "index.php"@),
    ensures
        spec_strip_url(spec_strip_url(u)) == spec_strip_url(u),
{
    let s1 = strip_query(u);
    let s2 = strip_fragment(s1);
    let s3 = strip_index_suffix(s2);
    let cp = collapse_slashes(s3.skip(7));
    let s4 = collapse_path(s3);
    let v = spec_strip_url(u);

    lemma_prefix_chars();
    lemma_strip_query_prefix(u);
    lemma_strip_fragment_prefix(s1);
    lemma_strip_index_prefix(s2);
    lemma_char_index(u, '?');
    lemma_char_index(s1, '#');

    // no stage reintroduces a query or fragment marker
    assert forall|j: int| 0 <= j < s3.len() implies s3[j] != '?' && s3[j] != '#' by {
        assert(s3[j] == s2[j]);
        assert(s2[j] == s1[j]);
        assert(s1[j] == u[j]);
    }
    assert forall|j: int| 0 <= j < s3.skip(7).len() implies s3.skip(7)[j] != '?' && s3.skip(7)[j]
        != '#' by {
        assert(s3.skip(7)[j] == s3[j + 7]);
    }
    lemma_collapse_no_char(s3.skip(7), '?');
    lemma_collapse_no_char(s3.skip(7), '#');
    assert forall|j: int| 0 <= j < s4.len() implies s4[j] != '?' && s4[j] != '#' by {
        if j < 7 {
            assert(s4[j] == s3.take(7)[j]);
            assert(s3.take(7)[j] == s3[j]);
        } else {
            assert(s4[j] == cp[j - 7]);
        }
    }

    // the result is a prefix of the collapsed form
    if char_count(s4, '/') == 3 {
        lemma_trim_prefix(s4);
        lemma_trim_no_trailing(s4);
    }
    assert forall|j: int| 0 <= j < v.len() implies v[j] == s4[j] by {
        if char_count(s4, '/') == 3 {
            assert(v[j] == s4.take(v.len() as int)[j]);
        }
    }
    assert(v.len() <= s4.len());

    // the first two stages change nothing: no `?`, no `#`
    assert forall|j: int| 0 <= j < v.len() implies v[j] != '?' && v[j] != '#' by {
        assert(v[j] == s4[j]);
    }
    lemma_absent_char_index(v, '?');
    assert(strip_query(v) =~= v);
    lemma_absent_char_index(v, '#');
    assert(strip_fragment(v) =~= v);

    // the third stage changes nothing: no trailing index.php
    assert(strip_index_suffix(v) == v);

    // the fourth stage changes nothing: no duplicate slashes remain
    assert((s3.take(7) + cp).skip(7) =~= cp);
    lemma_collapse_no_double(s3.skip(7));
    assert forall|j: int|
        0 <= j && j + 1 < v.skip(7).len() implies !(#[trigger] v.skip(7)[j] == '/' && v.skip(7)[j
        + 1] == '/') by {
        assert(v.skip(7)[j] == v[j + 7]);
        assert(v.skip(7)[j + 1] == v[j + 8]);
        assert(v[j + 7] == s4[j + 7]);
        assert(v[j + 8] == s4[j + 8]);
        assert(s4[j + 7] == cp[j]);
        assert(s4[j + 8] == cp[j + 1]);
    }
    lemma_collapse_identity(v.skip(7));
    assert(v.take(7) + v.skip(7) =~= v);
    assert(collapse_path(v) == v);

    // the fifth stage changes nothing: a trimmed root has no trailing
    // slash, and an untrimmed result keeps its slash count
    if char_count(s4, '/') == 3 {
        assert(trim_trailing_slashes(v) == v);
        assert(trim_root_slash(v) == v);
    } else {
        assert(trim_root_slash(v) == v);
    }
    assert(spec_strip_url(v) == v);
}

} // verus!
