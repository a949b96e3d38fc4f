//! Geo-IP country resolution.
//!
//! The canonical URL's host is either a domain name — then the caller
//! resolves it and looks the address up in the local geo-IP database —
//! or an address literal, or missing.  The asymmetry is deliberate: a
//! domain that fails to resolve fails the whole validation, while a
//! missing host, an unparsable address literal or an address unknown
//! to the database degrade to the sentinel country, since the
//! geographic signal is not critical.

use vstd::prelude::*;

verus! {

use vstd::string::StringExecFns;
use crate::errors::ValidationError;
use crate::text::str_copy;
use crate::urlinfo::url_host_of;
use crate::urlinfo::url_host_parts;

/// The sentinel country code: no geographic signal.
pub const UNKNOWN_COUNTRY: &'static str = "AQ";

/// What the caller must do to resolve a URL's country.
pub enum CountryQuery {
    /// The URL carries no usable host: no lookup, sentinel country.
    NoLookup,
    /// Resolve this domain name, then look the address up.
    ResolveDomain { host: String },
    /// Parse this address literal, then look the address up.
    ParseAddress { host: String },
}

/// Classify a URL's host for the country lookup.
pub fn country_query(url: &str) -> (q: CountryQuery)
    ensures
        match url_host_of(url@) {
            None => q is NoLookup,
            Some((h, is_domain)) => {
                if is_domain {
                    q matches CountryQuery::ResolveDomain { host } && host@ == h
                } else {
                    q matches CountryQuery::ParseAddress { host } && host@ == h
                }
            },
        },
{
    match url_host_parts(url) {
        None => CountryQuery::NoLookup,
        Some((host, is_domain)) => {
            if is_domain {
                CountryQuery::ResolveDomain { host }
            } else {
                CountryQuery::ParseAddress { host }
            }
        },
    }
}

/// What carrying a `CountryQuery` out produced, as plain values.
pub enum CountryOutcome {
    /// There was no host to look up.
    NoHost,
    /// The domain name did not resolve to an address.
    ResolutionFailed,
    /// The address literal did not parse.
    AddressInvalid,
    /// The database was consulted; its answer, if it had one.
    GeoLookup { iso_code: Option<String> },
}

/// Decide the country from a lookup's outcome.
///
/// A domain that failed to resolve is the one fatal case; everything
/// else yields a country code, with the sentinel standing in wherever
/// no geographic signal was obtained.
pub fn country_from(url: &String, outcome: CountryOutcome) -> (r: Result<String, ValidationError>)
    ensures
        match outcome {
            CountryOutcome::NoHost => r matches Ok(c) && c@ == UNKNOWN_COUNTRY@,
            CountryOutcome::ResolutionFailed => r matches Err(e) && (
            e matches ValidationError::UnsupportedHost { url: u } && u@ == url@),
            CountryOutcome::AddressInvalid => r matches Ok(c) && c@ == UNKNOWN_COUNTRY@,
            CountryOutcome::GeoLookup { iso_code } => {
                match iso_code {
                    Some(code) => r matches Ok(c) && c == code,
                    None => r matches Ok(c) && c@ == UNKNOWN_COUNTRY@,
                }
            },
        },
{
    match outcome {
        CountryOutcome::NoHost => Ok(String::from_str(UNKNOWN_COUNTRY)),
        CountryOutcome::ResolutionFailed => Err(ValidationError::UnsupportedHost {
            url: str_copy(url.as_str()),
        }),
        CountryOutcome::AddressInvalid => Ok(String::from_str(UNKNOWN_COUNTRY)),
        CountryOutcome::GeoLookup { iso_code } => {
            match iso_code {
                Some(code) => Ok(code),
                None => Ok(String::from_str(UNKNOWN_COUNTRY)),
            }
        },
    }
}

} // verus!
