//! The plain-value form of the command-line configuration for a combined
//! attribute-and-geometry query. Argument parsing itself lives with the
//! unverified front end, which converts into this type.

use vstd::prelude::*;

use crate::acs::AcsType;
use crate::geoid_type::GeoidType;

verus! {

/// One run's configuration: the target identifier string, an optional
/// wildcard level for sub-region expansion, the survey year and series,
/// the comma-separated variable query, and an optional API token.
#[derive(Debug)]
pub struct AcsTigerAppCli {
    pub geoid: String,
    pub wildcard: Option<GeoidType>,
    pub year: u64,
    pub acs_query: String,
    pub acs_type: AcsType,
    pub acs_token: Option<String>,
}

} // verus!
