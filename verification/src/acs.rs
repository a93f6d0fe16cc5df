//! The survey programme variant: the one-year or the five-year series.

use vstd::prelude::*;

verus! {

/// Which survey series a query addresses.
#[derive(Clone, Copy, Debug, PartialEq, Eq, Structural, Hash)]
pub enum AcsType {
    OneYear,
    FiveYear,
}

impl AcsType {
    /// The directory-name form of the series.
    pub open spec fn spec_directory_name(self) -> Seq<char> {
        match self {
            AcsType::OneYear => "acs1"@,
            AcsType::FiveYear => "acs5"@,
        }
    }

    /// The directory-name form of the series.
    pub fn to_directory_name(&self) -> (r: String)
        ensures
            r@ == self.spec_directory_name(),
    {
        match self {
            AcsType::OneYear => String::from_str("acs1"),
            AcsType::FiveYear => String::from_str("acs5"),
        }
    }

    /// The series as its year count.
    pub fn to_int(&self) -> (r: u64)
        ensures
            r == 1 <==> *self is OneYear,
            r == 5 <==> *self is FiveYear,
    {
        match self {
            AcsType::OneYear => 1,
            AcsType::FiveYear => 5,
        }
    }

    /// The series for a year count; only one and five are series.
    pub fn from_int(value: u64) -> (r: Option<AcsType>)
        ensures
            value == 1 ==> r == Some(AcsType::OneYear),
            value == 5 ==> r == Some(AcsType::FiveYear),
            value != 1 && value != 5 ==> r is None,
    {
        match value {
            1 => Some(AcsType::OneYear),
            5 => Some(AcsType::FiveYear),
            _ => None,
        }
    }
}

} // verus!
