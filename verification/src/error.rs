//! The error taxonomy of the library.
//!
//! Parsing and truncation errors are terminal for the single identifier
//! being processed; dataset-availability errors are terminal for the single
//! descriptor/state pair. The join engine never raises: its partial
//! failures are collected as strings alongside the successful output.

use vstd::prelude::*;

use crate::codec::{dec_digits, encode_u64};
use crate::geoid_type::GeoidType;
use crate::state_code::StateCode;

verus! {

/// Everything that can go wrong in this library's own logic.
#[derive(Clone, Copy, Debug, PartialEq, Eq, Structural)]
pub enum CensusError {
    /// A digit segment is not parseable for its component type.
    MalformedComponent,
    /// The input string's length maps to no hierarchy level.
    UnsupportedLength(usize),
    /// The requested truncation or projection target is not reachable from
    /// the source level in the hierarchy forest (first the source level,
    /// then the requested target).
    NotAnAncestor(GeoidType, GeoidType),
    /// The bulk dataset is known to be absent for this year and state.
    DataUnavailable(u64, StateCode),
}

impl CensusError {
    /// The error's human-readable description.
    pub open spec fn spec_message(self) -> Seq<char> {
        match self {
            CensusError::MalformedComponent =>
                "malformed component: expected a digit string"@,
            CensusError::UnsupportedLength(n) => "unsupported GEOID length "@ + dec_digits(
                n as nat,
            ),
            CensusError::NotAnAncestor(src, target) => target.spec_name()
                + " not a parent type of "@ + src.spec_name() + ", cannot truncate geoid"@,
            CensusError::DataUnavailable(year, sc) => "WAC is not available in "@ + dec_digits(
                year as nat,
            ) + " for "@ + sc.spec_abbreviation(),
        }
    }

    /// The error's human-readable description.
    pub fn message(&self) -> (r: String)
        ensures
            r@ == self.spec_message(),
    {
        match self {
            CensusError::MalformedComponent => String::from_str(
                "malformed component: expected a digit string",
            ),
            CensusError::UnsupportedLength(n) => {
                let mut s = String::from_str("unsupported GEOID length ");
                let d = encode_u64(*n as u64);
                s.append(d.as_str());
                proof {
                    assert(s@ =~= self.spec_message());
                }
                s
            },
            CensusError::NotAnAncestor(src, target) => {
                let mut s = target.name();
                s.append(" not a parent type of ");
                let v = src.name();
                s.append(v.as_str());
                s.append(", cannot truncate geoid");
                proof {
                    assert(s@ =~= self.spec_message());
                }
                s
            },
            CensusError::DataUnavailable(year, sc) => {
                let mut s = String::from_str("WAC is not available in ");
                let y = encode_u64(*year);
                s.append(y.as_str());
                s.append(" for ");
                let a = sc.to_state_abbreviation();
                s.append(a.as_str());
                proof {
                    assert(s@ =~= self.spec_message());
                }
                s
            },
        }
    }
}

} // verus!
