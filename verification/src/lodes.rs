//! The bulk-dataset locator: descriptors for the employment-statistics
//! file families, the fixed directory and file-name convention that maps a
//! descriptor and a target state to a remote path, and the hand-maintained
//! table of year/state combinations known to be absent.

use vstd::prelude::*;

use crate::codec::{dec_digits, encode_u64};
use crate::error::CensusError;
use crate::geoid::{Geoid, GeoidModel};
use crate::geoid_type::GeoidType;
use crate::state_code::{spec_state_of_fips, StateCode};

verus! {

/// The most recent data year the default descriptor points at.
pub const LATEST_YEAR: u64 = 2021;

/// An edition of the bulk-dataset series. Each edition is enumerated
/// against one decennial census geography.
#[derive(Clone, Copy, Debug, PartialEq, Eq, Structural, Hash)]
pub enum LodesEdition {
    Lodes7,
    Lodes8,
}

impl LodesEdition {
    /// The edition's directory name in remote paths.
    pub open spec fn spec_code(self) -> Seq<char> {
        match self {
            LodesEdition::Lodes7 => "LODES7"@,
            LodesEdition::Lodes8 => "LODES8"@,
        }
    }

    /// The edition's directory name in remote paths.
    pub fn code(&self) -> (r: String)
        ensures
            r@ == self.spec_code(),
    {
        match self {
            LodesEdition::Lodes7 => String::from_str("LODES7"),
            LodesEdition::Lodes8 => String::from_str("LODES8"),
        }
    }

    /// The boundary-file year that matches this edition's geography.
    pub open spec fn spec_tiger_year(self) -> u64 {
        match self {
            LodesEdition::Lodes7 => 2010,
            LodesEdition::Lodes8 => 2020,
        }
    }

    /// The boundary-file year that matches this edition's geography.
    pub fn tiger_year(&self) -> (r: u64)
        ensures
            r == self.spec_tiger_year(),
    {
        match self {
            LodesEdition::Lodes7 => 2010,
            LodesEdition::Lodes8 => 2020,
        }
    }
}

impl Default for LodesEdition {
    fn default() -> (r: Self)
        ensures
            r == LodesEdition::Lodes8,
    {
        LodesEdition::Lodes8
    }
}

/// A job-count classification within the series.
#[derive(Clone, Copy, Debug, PartialEq, Eq, Structural, Hash)]
pub enum LodesJobType {
    JT00,
    JT01,
    JT02,
    JT03,
    JT04,
    JT05,
}

impl LodesJobType {
    /// The classification's code in file names.
    pub open spec fn spec_code(self) -> Seq<char> {
        match self {
            LodesJobType::JT00 => "JT00"@,
            LodesJobType::JT01 => "JT01"@,
            LodesJobType::JT02 => "JT02"@,
            LodesJobType::JT03 => "JT03"@,
            LodesJobType::JT04 => "JT04"@,
            LodesJobType::JT05 => "JT05"@,
        }
    }

    /// The classification's code in file names.
    pub fn code(&self) -> (r: String)
        ensures
            r@ == self.spec_code(),
    {
        match self {
            LodesJobType::JT00 => String::from_str("JT00"),
            LodesJobType::JT01 => String::from_str("JT01"),
            LodesJobType::JT02 => String::from_str("JT02"),
            LodesJobType::JT03 => String::from_str("JT03"),
            LodesJobType::JT04 => String::from_str("JT04"),
            LodesJobType::JT05 => String::from_str("JT05"),
        }
    }
}

impl Default for LodesJobType {
    fn default() -> (r: Self)
        ensures
            r == LodesJobType::JT00,
    {
        LodesJobType::JT00
    }
}

/// Which half of an origin-destination file a descriptor names: the main
/// part (both ends in-state) or the auxiliary part (out-of-state homes).
#[derive(Clone, Copy, Debug, PartialEq, Eq, Structural, Hash)]
pub enum OdPart {
    Main,
    Aux,
}

impl OdPart {
    /// The part's code in file names.
    pub open spec fn spec_code(self) -> Seq<char> {
        match self {
            OdPart::Main => "main"@,
            OdPart::Aux => "aux"@,
        }
    }

    /// The part's code in file names.
    pub fn code(&self) -> (r: String)
        ensures
            r@ == self.spec_code(),
    {
        match self {
            OdPart::Main => String::from_str("main"),
            OdPart::Aux => String::from_str("aux"),
        }
    }
}

impl Default for OdPart {
    fn default() -> (r: Self)
        ensures
            r == OdPart::Main,
    {
        OdPart::Main
    }
}

/// A workforce segment of a workplace-characteristics file.
#[derive(Clone, Copy, Debug, PartialEq, Eq, Structural, Hash)]
pub enum WorkplaceSegment {
    S000,
    SA01,
    SA02,
    SA03,
    SE01,
    SE02,
    SE03,
    SI01,
    SI02,
    SI03,
}

impl WorkplaceSegment {
    /// The segment's code in file names.
    pub open spec fn spec_code(self) -> Seq<char> {
        match self {
            WorkplaceSegment::S000 => "S000"@,
            WorkplaceSegment::SA01 => "SA01"@,
            WorkplaceSegment::SA02 => "SA02"@,
            WorkplaceSegment::SA03 => "SA03"@,
            WorkplaceSegment::SE01 => "SE01"@,
            WorkplaceSegment::SE02 => "SE02"@,
            WorkplaceSegment::SE03 => "SE03"@,
            WorkplaceSegment::SI01 => "SI01"@,
            WorkplaceSegment::SI02 => "SI02"@,
            WorkplaceSegment::SI03 => "SI03"@,
        }
    }

    /// The segment's code in file names.
    pub fn code(&self) -> (r: String)
        ensures
            r@ == self.spec_code(),
    {
        match self {
            WorkplaceSegment::S000 => String::from_str("S000"),
            WorkplaceSegment::SA01 => String::from_str("SA01"),
            WorkplaceSegment::SA02 => String::from_str("SA02"),
            WorkplaceSegment::SA03 => String::from_str("SA03"),
            WorkplaceSegment::SE01 => String::from_str("SE01"),
            WorkplaceSegment::SE02 => String::from_str("SE02"),
            WorkplaceSegment::SE03 => String::from_str("SE03"),
            WorkplaceSegment::SI01 => String::from_str("SI01"),
            WorkplaceSegment::SI02 => String::from_str("SI02"),
            WorkplaceSegment::SI03 => String::from_str("SI03"),
        }
    }
}

impl Default for WorkplaceSegment {
    fn default() -> (r: Self)
        ensures
            r == WorkplaceSegment::S000,
    {
        WorkplaceSegment::S000
    }
}

/// The root under which every file of the series is published.
pub open spec fn spec_base_url() -> Seq<char> {
    "https://lehd.ces.census.gov/data/lodes"@
}

/// The root under which every file of the series is published.
pub fn base_url() -> (r: String)
    ensures
        r@ == spec_base_url(),
{
    String::from_str("https://lehd.ces.census.gov/data/lodes")
}

/// A bulk-file family: an origin-destination part, a residence file, or a
/// workplace-characteristics segment, with edition, job type and year.
/// A pure value; its only uses are deriving remote paths and looking up
/// availability.
#[derive(Clone, Copy, Debug, PartialEq, Eq, Structural, Hash)]
pub enum LodesDataset {
    OD { edition: LodesEdition, job_type: LodesJobType, od_part: OdPart, year: u64 },
    RAC,
    WAC { edition: LodesEdition, job_type: LodesJobType, segment: WorkplaceSegment, year: u64 },
}

impl Default for LodesDataset {
    fn default() -> (r: Self)
        ensures
            r == (LodesDataset::WAC {
                edition: LodesEdition::Lodes8,
                job_type: LodesJobType::JT00,
                segment: WorkplaceSegment::S000,
                year: LATEST_YEAR,
            }),
    {
        LodesDataset::WAC {
            edition: LodesEdition::default(),
            job_type: LodesJobType::default(),
            segment: WorkplaceSegment::default(),
            year: LATEST_YEAR,
        }
    }
}

/// The table of year/state combinations for which workplace data is known
/// to be absent from the series.
pub open spec fn spec_wac_excluded(year: u64, sc: StateCode) -> bool {
    ||| (year == 2002 && (sc is Arkansas || sc is NewHampshire))
    ||| (2002 <= year <= 2003 && (sc is Arizona || sc is Mississippi))
    ||| (2002 <= year <= 2009 && sc is DistrictOfColumbia)
    ||| (2002 <= year <= 2010 && sc is Massachusetts)
    ||| (2017 <= year <= 2020 && sc is Alaska)
    ||| (2019 <= year <= 2020 && (sc is Arkansas || sc is Mississippi))
}

/// Whether `y` lies in the closed range from `min` to `max`.
pub fn in_range(y: u64, min: u64, max: u64) -> (r: bool)
    ensures
        r == (min <= y <= max),
{
    min <= y && y <= max
}

/// Check a year/state pair against the exclusion table; fails with
/// [`CensusError::DataUnavailable`] naming the state and year exactly when
/// the combination is known to be absent.
pub fn validate_wac_availability(year: u64, state_code: &StateCode) -> (r: Result<
    (),
    CensusError,
>)
    ensures
        r is Ok <==> !spec_wac_excluded(year, *state_code),
        r matches Err(e) ==> e == CensusError::DataUnavailable(year, *state_code),
{
    let excluded = match state_code {
        StateCode::Arkansas => year == 2002 || in_range(year, 2019, 2020),
        StateCode::NewHampshire => year == 2002,
        StateCode::Arizona => in_range(year, 2002, 2003),
        StateCode::Mississippi => in_range(year, 2002, 2003) || in_range(year, 2019, 2020),
        StateCode::DistrictOfColumbia => in_range(year, 2002, 2009),
        StateCode::Massachusetts => in_range(year, 2002, 2010),
        StateCode::Alaska => in_range(year, 2017, 2020),
        _ => false,
    };
    if excluded {
        Err(CensusError::DataUnavailable(year, *state_code))
    } else {
        Ok(())
    }
}

/// The model of a fallible path result, for stating contracts.
pub open spec fn uri_result_model(r: Result<String, CensusError>) -> Result<
    Seq<char>,
    CensusError,
> {
    match r {
        Ok(s) => Ok(s@),
        Err(e) => Err(e),
    }
}

impl LodesDataset {
    /// A prose description of the file family.
    pub open spec fn spec_description(self) -> Seq<char> {
        match self {
            LodesDataset::OD { edition, job_type, od_part, year } => dec_digits(year as nat) + " "@
                + edition.spec_code() + " "@ + od_part.spec_code() + " Origin-Destination data, "@
                + job_type.spec_code()
                + " job totals are associated with both a home Census Block and a work Census Block"@,
            LodesDataset::RAC =>
                "Residence Area Characteristic data, jobs are totaled by home Census Block"@,
            LodesDataset::WAC { edition, job_type, segment, year } => dec_digits(year as nat)
                + " "@ + edition.spec_code() + " "@ + segment.spec_code()
                + " Workplace Area Characteristic data, "@ + job_type.spec_code()
                + " jobs are totaled by work Census Block"@,
        }
    }

    /// A prose description of the file family.
    pub fn description(&self) -> (r: String)
        ensures
            r@ == self.spec_description(),
    {
        match self {
            LodesDataset::OD { edition, job_type, od_part, year } => {
                let mut s = encode_u64(*year);
                s.append(" ");
                let e = edition.code();
                s.append(e.as_str());
                s.append(" ");
                let p = od_part.code();
                s.append(p.as_str());
                s.append(" Origin-Destination data, ");
                let j = job_type.code();
                s.append(j.as_str());
                s.append(
                    " job totals are associated with both a home Census Block and a work Census Block",
                );
                proof {
                    assert(s@ =~= self.spec_description());
                }
                s
            },
            LodesDataset::RAC => String::from_str(
                "Residence Area Characteristic data, jobs are totaled by home Census Block",
            ),
            LodesDataset::WAC { edition, job_type, segment, year } => {
                let mut s = encode_u64(*year);
                s.append(" ");
                let e = edition.code();
                s.append(e.as_str());
                s.append(" ");
                let g = segment.code();
                s.append(g.as_str());
                s.append(" Workplace Area Characteristic data, ");
                let j = job_type.code();
                s.append(j.as_str());
                s.append(" jobs are totaled by work Census Block");
                proof {
                    assert(s@ =~= self.spec_description());
                }
                s
            },
        }
    }

    /// The per-kind directory name under the edition and state directories.
    pub open spec fn spec_dataset_directory(self) -> Seq<char> {
        match self {
            LodesDataset::OD { .. } => "od"@,
            LodesDataset::RAC => Seq::empty(),
            LodesDataset::WAC { .. } => "wac"@,
        }
    }

    /// The per-kind directory name under the edition and state directories.
    /// The residence-file directory layout is not part of this locator.
    pub fn dataset_directory(&self) -> (r: String)
        requires
            !(*self is RAC),
        ensures
            r@ == self.spec_dataset_directory(),
    {
        match self {
            LodesDataset::OD { .. } => String::from_str("od"),
            LodesDataset::RAC => String::new(),
            LodesDataset::WAC { .. } => String::from_str("wac"),
        }
    }

    /// The remote path that the directory and file-name convention assigns
    /// to this descriptor for the given state: the base, the edition, the
    /// state abbreviation, the kind directory, and a kind-specific file
    /// name carrying the abbreviation, the kind's fields, and the year.
    pub open spec fn spec_create_uri(self, m: GeoidModel) -> Result<Seq<char>, CensusError> {
        match spec_state_of_fips(m.state_component()) {
            None => Err(CensusError::MalformedComponent),
            Some(sc) => {
                let ab = sc.spec_abbreviation();
                match self {
                    LodesDataset::OD { edition, job_type, od_part, year } => Ok(
                        spec_base_url() + "/"@ + edition.spec_code() + "/"@ + ab + "/"@ + "od"@
                            + "/"@ + ab + "_od_"@ + od_part.spec_code() + "_"@
                            + job_type.spec_code() + "_"@ + dec_digits(year as nat) + ".csv.gz"@,
                    ),
                    LodesDataset::RAC => Err(CensusError::MalformedComponent),
                    LodesDataset::WAC { edition, job_type, segment, year } => {
                        if spec_wac_excluded(year, sc) {
                            Err(CensusError::DataUnavailable(year, sc))
                        } else {
                            Ok(
                                spec_base_url() + "/"@ + edition.spec_code() + "/"@ + ab + "/"@
                                    + "wac"@ + "/"@ + ab + "_wac_"@ + segment.spec_code() + "_"@
                                    + job_type.spec_code() + "_"@ + dec_digits(year as nat)
                                    + ".csv.gz"@,
                            )
                        }
                    },
                }
            },
        }
    }

    /// The remote path for this descriptor and the state of the given
    /// identifier. Fails with `MalformedComponent` when the identifier's
    /// state component is no assigned state code, and with
    /// `DataUnavailable` when the exclusion table names the year and
    /// state.
    pub fn create_uri(&self, geoid: &Geoid) -> (r: Result<String, CensusError>)
        requires
            !(*self is RAC),
        ensures
            uri_result_model(r) == self.spec_create_uri(geoid@),
    {
        let fips_val = geoid.state_fips();
        let sc = match StateCode::from_state_fips(fips_val) {
            Some(sc) => sc,
            None => {
                return Err(CensusError::MalformedComponent);
            },
        };
        let abbrev = sc.to_state_abbreviation();
        match self {
            LodesDataset::OD { edition, job_type, od_part, year } => {
                let mut u = base_url();
                u.append("/");
                let e = edition.code();
                u.append(e.as_str());
                u.append("/");
                u.append(abbrev.as_str());
                u.append("/");
                u.append("od");
                u.append("/");
                u.append(abbrev.as_str());
                u.append("_od_");
                let p = od_part.code();
                u.append(p.as_str());
                u.append("_");
                let j = job_type.code();
                u.append(j.as_str());
                u.append("_");
                let y = encode_u64(*year);
                u.append(y.as_str());
                u.append(".csv.gz");
                proof {
                    assert(uri_result_model(Ok(u)) == self.spec_create_uri(geoid@));
                }
                Ok(u)
            },
            LodesDataset::RAC => Err(CensusError::MalformedComponent),
            LodesDataset::WAC { edition, job_type, segment, year } => {
                validate_wac_availability(*year, &sc)?;
                let mut u = base_url();
                u.append("/");
                let e = edition.code();
                u.append(e.as_str());
                u.append("/");
                u.append(abbrev.as_str());
                u.append("/");
                u.append("wac");
                u.append("/");
                u.append(abbrev.as_str());
                u.append("_wac_");
                let g = segment.code();
                u.append(g.as_str());
                u.append("_");
                let j = job_type.code();
                u.append(j.as_str());
                u.append("_");
                let y = encode_u64(*year);
                u.append(y.as_str());
                u.append(".csv.gz");
                proof {
                    assert(uri_result_model(Ok(u)) == self.spec_create_uri(geoid@));
                }
                Ok(u)
            },
        }
    }

    /// The local output file name for this descriptor and an optional
    /// wildcard level (the block level when no wildcard is given).
    pub open spec fn spec_output_filename(self, wildcard: Option<GeoidType>) -> Seq<char> {
        let res = match wildcard {
            Some(t) => t.spec_name(),
            None => GeoidType::Block.spec_name(),
        };
        match self {
            LodesDataset::OD { edition, job_type, od_part, year } => edition.spec_code() + "_od_"@
                + dec_digits(year as nat) + "_"@ + job_type.spec_code() + "_"@
                + od_part.spec_code() + "_"@ + res + ".csv"@,
            LodesDataset::RAC => Seq::empty(),
            LodesDataset::WAC { edition, job_type, segment, year } => edition.spec_code()
                + "_wac_"@ + dec_digits(year as nat) + "_"@ + job_type.spec_code() + "_"@
                + segment.spec_code() + "_"@ + res + ".csv"@,
        }
    }

    /// The local output file name for this descriptor and an optional
    /// wildcard level (the block level when no wildcard is given).
    pub fn output_filename(&self, wildcard: &Option<GeoidType>) -> (r: String)
        requires
            !(*self is RAC),
        ensures
            r@ == self.spec_output_filename(*wildcard),
    {
        let res = match wildcard {
            Some(t) => t.name(),
            None => GeoidType::Block.name(),
        };
        match self {
            LodesDataset::OD { edition, job_type, od_part, year } => {
                let mut s = edition.code();
                s.append("_od_");
                let y = encode_u64(*year);
                s.append(y.as_str());
                s.append("_");
                let j = job_type.code();
                s.append(j.as_str());
                s.append("_");
                let p = od_part.code();
                s.append(p.as_str());
                s.append("_");
                s.append(res.as_str());
                s.append(".csv");
                proof {
                    assert(s@ =~= self.spec_output_filename(*wildcard));
                }
                s
            },
            LodesDataset::RAC => String::new(),
            LodesDataset::WAC { edition, job_type, segment, year } => {
                let mut s = edition.code();
                s.append("_wac_");
                let y = encode_u64(*year);
                s.append(y.as_str());
                s.append("_");
                let j = job_type.code();
                s.append(j.as_str());
                s.append("_");
                let g = segment.code();
                s.append(g.as_str());
                s.append("_");
                s.append(res.as_str());
                s.append(".csv");
                proof {
                    assert(s@ =~= self.spec_output_filename(*wildcard));
                }
                s
            },
        }
    }

    /// The boundary-file year to pair with this descriptor's edition.
    pub open spec fn spec_tiger_year(self) -> u64 {
        match self {
            LodesDataset::OD { edition, .. } => edition.spec_tiger_year(),
            LodesDataset::RAC => 0,
            LodesDataset::WAC { edition, .. } => edition.spec_tiger_year(),
        }
    }

    /// The boundary-file year to pair with this descriptor's edition,
    /// for downloading the matching boundary files.
    pub fn tiger_year(&self) -> (r: u64)
        requires
            !(*self is RAC),
        ensures
            r == self.spec_tiger_year(),
    {
        match self {
            LodesDataset::OD { edition, .. } => edition.tiger_year(),
            LodesDataset::RAC => 0,
            LodesDataset::WAC { edition, .. } => edition.tiger_year(),
        }
    }
}

} // verus!
