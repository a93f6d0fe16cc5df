//! Verified model of hierarchical census geographic identifiers (GEOIDs):
//! fixed-width digit codecs, the seven-level identifier hierarchy with its
//! navigation and truncation rules, a join engine for combining attribute
//! rows with geometry collections, and a locator for bulk dataset files.

pub mod acs;
pub mod agg;
pub mod cli;
pub mod codec;
pub mod error;
pub mod fips;
pub mod geoid;
pub mod geoid_type;
pub mod join;
pub mod lehd;
pub mod lodes;
pub mod state_code;
pub mod variable;
