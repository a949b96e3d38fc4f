//! Verified core of a directory of self-hosted paste and conferencing
//! instances.
//!
//! The library contains the instance-validation pipeline (URL
//! canonicalization, HTTP-to-HTTPS redirect analysis, the robots gate,
//! bounded page scanning for version / feature / CSP markers, geo-IP
//! country resolution and security-rating retrieval decisions), the
//! in-process freshness caches, and the reconciliation rules of the
//! periodic re-check sweeps.  Network, database and clock access stay
//! outside: callers perform each probe and hand the observed outcome to
//! the decision functions defined here.

pub mod cache;
pub mod country;
pub mod canon;
pub mod csp;
pub mod errors;
pub mod models;
pub mod probe;
pub mod properties;
pub mod rating;
pub mod reader;
pub mod robots;
pub mod sweep;
pub mod text;
pub mod urlinfo;
pub mod validator;
