//! A second, lower-level form of the bulk-dataset locator that takes the
//! state's path abbreviation directly instead of deriving it from an
//! identifier, and performs no availability check.

use vstd::prelude::*;

use crate::codec::{dec_digits, encode_u64};
use crate::lodes::{base_url, spec_base_url, LodesEdition, LodesJobType, OdPart, WorkplaceSegment};

verus! {

/// A bulk-file family, as [`crate::lodes::LodesDataset`], for callers that
/// already hold the state's path abbreviation.
#[derive(Clone, Copy, Debug, PartialEq, Eq, Structural, Hash)]
pub enum LodesDataset {
    OD { edition: LodesEdition, job_type: LodesJobType, od_part: OdPart, year: u64 },
    RAC,
    WAC { edition: LodesEdition, job_type: LodesJobType, segment: WorkplaceSegment, year: u64 },
}

impl LodesDataset {
    /// A prose description of the file family.
    pub open spec fn spec_description(self) -> Seq<char> {
        match self {
            LodesDataset::OD { edition, job_type, od_part, year } => dec_digits(year as nat) + " "@
                + edition.spec_code() + " "@ + od_part.spec_code() + " Origin-Destination data, "@
                + job_type.spec_code()
                + " job totals are associated with both a home Census Block and a work Census Block"@,
            LodesDataset::RAC =>
                "Residence Area Characteristic data, jobs are totaled by home Census Block"@,
            LodesDataset::WAC { edition, job_type, segment, year } => dec_digits(year as nat)
                + " "@ + edition.spec_code() + " "@ + segment.spec_code()
                + " Workplace Area Characteristic data, "@ + job_type.spec_code()
                + " jobs are totaled by work Census Block"@,
        }
    }

    /// A prose description of the file family.
    pub fn description(&self) -> (r: String)
        ensures
            r@ == self.spec_description(),
    {
        match self {
            LodesDataset::OD { edition, job_type, od_part, year } => {
                let mut s = encode_u64(*year);
                s.append(" ");
                let e = edition.code();
                s.append(e.as_str());
                s.append(" ");
                let p = od_part.code();
                s.append(p.as_str());
                s.append(" Origin-Destination data, ");
                let j = job_type.code();
                s.append(j.as_str());
                s.append(
                    " job totals are associated with both a home Census Block and a work Census Block",
                );
                proof {
                    assert(s@ =~= self.spec_description());
                }
                s
            },
            LodesDataset::RAC => String::from_str(
                "Residence Area Characteristic data, jobs are totaled by home Census Block",
            ),
            LodesDataset::WAC { edition, job_type, segment, year } => {
                let mut s = encode_u64(*year);
                s.append(" ");
                let e = edition.code();
                s.append(e.as_str());
                s.append(" ");
                let g = segment.code();
                s.append(g.as_str());
                s.append(" Workplace Area Characteristic data, ");
                let j = job_type.code();
                s.append(j.as_str());
                s.append(" jobs are totaled by work Census Block");
                proof {
                    assert(s@ =~= self.spec_description());
                }
                s
            },
        }
    }

    /// The per-kind directory name under the edition and state directories.
    pub open spec fn spec_dataset_directory(self) -> Seq<char> {
        match self {
            LodesDataset::OD { .. } => "od"@,
            LodesDataset::RAC => Seq::empty(),
            LodesDataset::WAC { .. } => "wac"@,
        }
    }

    /// The per-kind directory name under the edition and state directories.
    /// The residence-file directory layout is not part of this locator.
    pub fn dataset_directory(&self) -> (r: String)
        requires
            !(*self is RAC),
        ensures
            r@ == self.spec_dataset_directory(),
    {
        match self {
            LodesDataset::OD { .. } => String::from_str("od"),
            LodesDataset::RAC => String::new(),
            LodesDataset::WAC { .. } => String::from_str("wac"),
        }
    }

    /// The remote path for this descriptor and a state's path
    /// abbreviation, used verbatim.
    pub open spec fn spec_create_uri(self, state_code: Seq<char>) -> Seq<char> {
        match self {
            LodesDataset::OD { edition, job_type, od_part, year } => spec_base_url() + "/"@
                + edition.spec_code() + "/"@ + state_code + "/"@ + "od"@ + "/"@ + state_code
                + "_od_"@ + od_part.spec_code() + "_"@ + job_type.spec_code() + "_"@ + dec_digits(
                year as nat,
            ) + ".csv.gz"@,
            LodesDataset::RAC => Seq::empty(),
            LodesDataset::WAC { edition, job_type, segment, year } => spec_base_url() + "/"@
                + edition.spec_code() + "/"@ + state_code + "/"@ + "wac"@ + "/"@ + state_code
                + "_wac_"@ + segment.spec_code() + "_"@ + job_type.spec_code() + "_"@ + dec_digits(
                year as nat,
            ) + ".csv.gz"@,
        }
    }

    /// The remote path for this descriptor and a state's path
    /// abbreviation, following the series' directory and file-name
    /// convention.
    pub fn create_uri(&self, state_code: &str) -> (r: String)
        requires
            !(*self is RAC),
        ensures
            r@ == self.spec_create_uri(state_code@),
    {
        match self {
            LodesDataset::OD { edition, job_type, od_part, year } => {
                let mut u = base_url();
                u.append("/");
                let e = edition.code();
                u.append(e.as_str());
                u.append("/");
                u.append(state_code);
                u.append("/");
                u.append("od");
                u.append("/");
                u.append(state_code);
                u.append("_od_");
                let p = od_part.code();
                u.append(p.as_str());
                u.append("_");
                let j = job_type.code();
                u.append(j.as_str());
                u.append("_");
                let y = encode_u64(*year);
                u.append(y.as_str());
                u.append(".csv.gz");
                proof {
                    assert(u@ =~= self.spec_create_uri(state_code@));
                }
                u
            },
            LodesDataset::RAC => String::new(),
            LodesDataset::WAC { edition, job_type, segment, year } => {
                let mut u = base_url();
                u.append("/");
                let e = edition.code();
                u.append(e.as_str());
                u.append("/");
                u.append(state_code);
                u.append("/");
                u.append("wac");
                u.append("/");
                u.append(state_code);
                u.append("_wac_");
                let g = segment.code();
                u.append(g.as_str());
                u.append("_");
                let j = job_type.code();
                u.append(j.as_str());
                u.append("_");
                let y = encode_u64(*year);
                u.append(y.as_str());
                u.append(".csv.gz");
                proof {
                    assert(u@ =~= self.spec_create_uri(state_code@));
                }
                u
            },
        }
    }
}

} // verus!
