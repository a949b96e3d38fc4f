//! Host extraction from candidate URLs.
//!
//! The validator needs to know a URL's host — to resolve its country
//! and to name it to the rating API — and whether that host is a
//! domain name or an address literal.  Parsing is left to the `url`
//! crate behind one trusted wrapper; everything that depends on the
//! answer is decided in verified code.

use vstd::prelude::*;

verus! {

/// What parsing extracts from a URL string: its host (IDN already in
/// punycode) and whether that host is a domain name rather than an IP
/// address literal; `None` when the string does not parse as a URL
/// with a host.  A function of the string alone.
pub uninterp spec fn url_host_of(s: Seq<char>) -> Option<(Seq<char>, bool)>;

/// Relies on `url::Url::parse`, `Url::host_str` and `Url::domain`:
/// parsing depends on the string alone, `host_str` is the parsed
/// host, and `domain` answers for exactly the hosts that are domain
/// names.
#[verifier::external_body]
pub fn url_host_parts(url: &str) -> (r: Option<(String, bool)>)
    ensures
        r is Some <==> url_host_of(url@) is Some,
        r matches Some((h, d)) ==> url_host_of(url@) == Some((h@, d)),
{
    match url::Url::parse(url) {
        Ok(parsed) => match parsed.host_str() {
            Some(h) => {
                let is_domain = parsed.domain().is_some();
                Some((h.to_owned(), is_domain))
            },
            None => None,
        },
        Err(_) => None,
    }
}

} // verus!
