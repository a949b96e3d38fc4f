//! The validator's failure taxonomy, and the user-facing message each
//! failure carries.

use vstd::prelude::*;

verus! {

use vstd::string::StringExecFns;
use crate::models::InstanceVariant;

/// Why a candidate URL failed validation.  Each variant carries the
/// offending URL and, where applicable, the upstream status code.
#[derive(Clone, Debug)]
pub enum ValidationError {
    /// The submitted text is not an HTTP or HTTPS URL.
    InvalidUrl { url: String },
    /// The URL's host could not be parsed or resolved.
    UnsupportedHost { url: String },
    /// The host could not be reached, or not within the request timeout.
    Unresponsive { url: String, timed_out: bool },
    /// The instance answered with a status other than 200.
    BadStatus { url: String, status: u16 },
    /// The host's robots rules forbid indexing it.
    NotAllowed { url: String },
    /// No recognizable service marker was found on the page.
    NotThisService { url: String, variant: InstanceVariant },
}

/// The decimal digit characters of `n`, most significant first.
pub open spec fn spec_decimal(n: nat) -> Seq<char>
    decreases n,
{
    if n < 10 {
        seq![spec_digit_char(n)]
    } else {
        spec_decimal(n / 10) + seq![spec_digit_char(n % 10)]
    }
}

/// The character of one decimal digit.
pub open spec fn spec_digit_char(d: nat) -> char {
    if d == 0 {
        '0'
    } else if d == 1 {
        '1'
    } else if d == 2 {
        '2'
    } else if d == 3 {
        '3'
    } else if d == 4 {
        '4'
    } else if d == 5 {
        '5'
    } else if d == 6 {
        '6'
    } else if d == 7 {
        '7'
    } else if d == 8 {
        '8'
    } else {
        '9'
    }
}

/// One decimal digit as a string slice.
fn digit_str(d: u16) -> (r: &'static str)
    requires
        d < 10,
    ensures
        r@ == seq![spec_digit_char(d as nat)],
{
    proof {
        reveal_strlit("0");
        reveal_strlit("1");
        reveal_strlit("2");
        reveal_strlit("3");
        reveal_strlit("4");
        reveal_strlit("5");
        reveal_strlit("6");
        reveal_strlit("7");
        reveal_strlit("8");
        reveal_strlit("9");
    }
    let r = match d {
        0 => "0",
        1 => "1",
        2 => "2",
        3 => "3",
        4 => "4",
        5 => "5",
        6 => "6",
        7 => "7",
        8 => "8",
        _ => "9",
    };
    proof {
        assert(r@ =~= seq![spec_digit_char(d as nat)]);
    }
    r
}

/// Decimal rendering of a 16-bit number (a status code, in practice).
pub fn u16_string(n: u16) -> (r: String)
    ensures
        r@ == spec_decimal(n as nat),
    decreases n,
{
    if n < 10 {
        String::from_str(digit_str(n))
    } else {
        let mut s = u16_string(n / 10);
        s.append(digit_str(n % 10));
        s
    }
}

impl ValidationError {
    /// The user-facing message of this failure, as the add/check surface
    /// reports it.
    pub fn message(&self) -> (r: String)
        ensures
            match self {
                ValidationError::InvalidUrl { url } => r@ == "Not a valid URL: "@ + url@,
                ValidationError::UnsupportedHost { url } => r@ == "Host or domain of URL "@ + url@
                    + " is not supported."@,
                ValidationError::Unresponsive { url, timed_out } => {
                    if *timed_out {
                        r@ == "Web server on URL "@ + url@ + " is not responding within 15s."@
                    } else {
                        r@ == "Web server on URL "@ + url@ + " is not responding."@
                    }
                },
                ValidationError::BadStatus { url, status } => r@
                    == "Web server responded with status code "@ + spec_decimal(*status as nat)
                    + "."@,
                ValidationError::NotAllowed { url } => r@ == "Web server on URL "@ + url@
                    + " doesn't want to get added to the directory."@,
                ValidationError::NotThisService { url, variant } => {
                    if variant == InstanceVariant::PrivateBin {
                        r@ == "The URL "@ + url@ + " doesn't seem to be a PrivateBin instance."@
                    } else {
                        r@ == "The URL "@ + url@ + " doesn't seem to be a Jitsi instance."@
                    }
                },
            },
    {
        match self {
            ValidationError::InvalidUrl { url } => {
                let mut m = String::from_str("Not a valid URL: ");
                m.append(url.as_str());
                m
            },
            ValidationError::UnsupportedHost { url } => {
                let mut m = String::from_str("Host or domain of URL ");
                m.append(url.as_str());
                m.append(" is not supported.");
                m
            },
            ValidationError::Unresponsive { url, timed_out } => {
                let mut m = String::from_str("Web server on URL ");
                m.append(url.as_str());
                if *timed_out {
                    m.append(" is not responding within 15s.");
                } else {
                    m.append(" is not responding.");
                }
                m
            },
            ValidationError::BadStatus { url: _, status } => {
                let mut m = String::from_str("Web server responded with status code ");
                let digits = u16_string(*status);
                m.append(digits.as_str());
                m.append(".");
                m
            },
            ValidationError::NotAllowed { url } => {
                let mut m = String::from_str("Web server on URL ");
                m.append(url.as_str());
                m.append(" doesn't want to get added to the directory.");
                m
            },
            ValidationError::NotThisService { url, variant } => {
                let mut m = String::from_str("The URL ");
                m.append(url.as_str());
                if matches!(variant, InstanceVariant::PrivateBin) {
                    m.append(" doesn't seem to be a PrivateBin instance.");
                } else {
                    m.append(" doesn't seem to be a Jitsi instance.");
                }
                m
            },
        }
    }
}

} // verus!
