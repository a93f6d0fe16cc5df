use us_census::acs::AcsType;
use us_census::error::CensusError;
use us_census::fips;
use us_census::geoid::Geoid;
use us_census::geoid_type::GeoidType;
use us_census::lodes::{
    in_range, validate_wac_availability, LodesDataset, LodesEdition, LodesJobType, OdPart,
    WorkplaceSegment, LATEST_YEAR,
};
use us_census::state_code::StateCode;

fn wac_2015() -> LodesDataset {
    LodesDataset::WAC {
        edition: LodesEdition::Lodes8,
        job_type: LodesJobType::JT00,
        segment: WorkplaceSegment::S000,
        year: 2015,
    }
}

#[test]
fn availability_arkansas() {
    assert_eq!(
        validate_wac_availability(2002, &StateCode::Arkansas),
        Err(CensusError::DataUnavailable(2002, StateCode::Arkansas))
    );
    assert_eq!(validate_wac_availability(2015, &StateCode::Arkansas), Ok(()));
}

#[test]
fn availability_table_entries() {
    assert!(validate_wac_availability(2002, &StateCode::NewHampshire).is_err());
    assert!(validate_wac_availability(2003, &StateCode::NewHampshire).is_ok());
    assert!(validate_wac_availability(2003, &StateCode::Arizona).is_err());
    assert!(validate_wac_availability(2004, &StateCode::Arizona).is_ok());
    assert!(validate_wac_availability(2003, &StateCode::Mississippi).is_err());
    assert!(validate_wac_availability(2019, &StateCode::Mississippi).is_err());
    assert!(validate_wac_availability(2021, &StateCode::Mississippi).is_ok());
    assert!(validate_wac_availability(2009, &StateCode::DistrictOfColumbia).is_err());
    assert!(validate_wac_availability(2010, &StateCode::DistrictOfColumbia).is_ok());
    assert!(validate_wac_availability(2010, &StateCode::Massachusetts).is_err());
    assert!(validate_wac_availability(2011, &StateCode::Massachusetts).is_ok());
    assert!(validate_wac_availability(2017, &StateCode::Alaska).is_err());
    assert!(validate_wac_availability(2020, &StateCode::Alaska).is_err());
    assert!(validate_wac_availability(2016, &StateCode::Alaska).is_ok());
    assert!(validate_wac_availability(2021, &StateCode::Alaska).is_ok());
    assert!(validate_wac_availability(2020, &StateCode::Arkansas).is_err());
    assert!(validate_wac_availability(2002, &StateCode::Colorado).is_ok());
}

#[test]
fn in_range_bounds() {
    assert!(in_range(2002, 2002, 2003));
    assert!(in_range(2003, 2002, 2003));
    assert!(!in_range(2004, 2002, 2003));
    assert!(!in_range(2001, 2002, 2003));
}

#[test]
fn wac_uri_for_arkansas() {
    let geoid = Geoid::State(fips::State(5));
    let uri = wac_2015().create_uri(&geoid).unwrap();
    assert_eq!(
        uri,
        "https://lehd.ces.census.gov/data/lodes/LODES8/ar/wac/ar_wac_S000_JT00_2015.csv.gz"
    );
}

#[test]
fn od_uri_for_colorado_county() {
    let ds = LodesDataset::OD {
        edition: LodesEdition::Lodes7,
        job_type: LodesJobType::JT01,
        od_part: OdPart::Aux,
        year: 2010,
    };
    let geoid = Geoid::from_string("08059").unwrap();
    let uri = ds.create_uri(&geoid).unwrap();
    assert_eq!(
        uri,
        "https://lehd.ces.census.gov/data/lodes/LODES7/co/od/co_od_aux_JT01_2010.csv.gz"
    );
}

#[test]
fn create_uri_rejects_excluded_year() {
    let ds = LodesDataset::WAC {
        edition: LodesEdition::Lodes8,
        job_type: LodesJobType::JT00,
        segment: WorkplaceSegment::S000,
        year: 2002,
    };
    let geoid = Geoid::State(fips::State(5));
    assert_eq!(
        ds.create_uri(&geoid),
        Err(CensusError::DataUnavailable(2002, StateCode::Arkansas))
    );
}

#[test]
fn create_uri_rejects_unknown_state() {
    let geoid = Geoid::State(fips::State(99));
    assert_eq!(
        wac_2015().create_uri(&geoid),
        Err(CensusError::MalformedComponent)
    );
}

#[test]
fn output_filename_wildcards() {
    assert_eq!(
        wac_2015().output_filename(&None),
        "LODES8_wac_2015_JT00_S000_block.csv"
    );
    assert_eq!(
        wac_2015().output_filename(&Some(GeoidType::County)),
        "LODES8_wac_2015_JT00_S000_county.csv"
    );
    let od = LodesDataset::OD {
        edition: LodesEdition::Lodes7,
        job_type: LodesJobType::JT02,
        od_part: OdPart::Main,
        year: 2008,
    };
    assert_eq!(
        od.output_filename(&Some(GeoidType::CensusTract)),
        "LODES7_od_2008_JT02_main_census tract.csv"
    );
}

#[test]
fn description_texts() {
    assert_eq!(
        wac_2015().description(),
        "2015 LODES8 S000 Workplace Area Characteristic data, JT00 jobs are totaled by work Census Block"
    );
    let od = LodesDataset::OD {
        edition: LodesEdition::Lodes8,
        job_type: LodesJobType::JT00,
        od_part: OdPart::Main,
        year: 2020,
    };
    assert_eq!(
        od.description(),
        "2020 LODES8 main Origin-Destination data, JT00 job totals are associated with both a home Census Block and a work Census Block"
    );
    assert_eq!(
        LodesDataset::RAC.description(),
        "Residence Area Characteristic data, jobs are totaled by home Census Block"
    );
}

#[test]
fn dataset_directory_and_tiger_year() {
    assert_eq!(wac_2015().dataset_directory(), "wac");
    let od = LodesDataset::OD {
        edition: LodesEdition::Lodes7,
        job_type: LodesJobType::JT00,
        od_part: OdPart::Main,
        year: 2010,
    };
    assert_eq!(od.dataset_directory(), "od");
    assert_eq!(od.tiger_year(), 2010);
    assert_eq!(wac_2015().tiger_year(), 2020);
}

#[test]
fn default_dataset() {
    assert_eq!(
        LodesDataset::default(),
        LodesDataset::WAC {
            edition: LodesEdition::Lodes8,
            job_type: LodesJobType::JT00,
            segment: WorkplaceSegment::S000,
            year: LATEST_YEAR,
        }
    );
}

#[test]
fn lehd_dataset_uri_from_state_code() {
    let ds = us_census::lehd::LodesDataset::WAC {
        edition: LodesEdition::Lodes8,
        job_type: LodesJobType::JT00,
        segment: WorkplaceSegment::SA01,
        year: 2019,
    };
    assert_eq!(
        ds.create_uri("ak"),
        "https://lehd.ces.census.gov/data/lodes/LODES8/ak/wac/ak_wac_SA01_JT00_2019.csv.gz"
    );
    let od = us_census::lehd::LodesDataset::OD {
        edition: LodesEdition::Lodes8,
        job_type: LodesJobType::JT00,
        od_part: OdPart::Main,
        year: 2019,
    };
    assert_eq!(
        od.create_uri("ak"),
        "https://lehd.ces.census.gov/data/lodes/LODES8/ak/od/ak_od_main_JT00_2019.csv.gz"
    );
    assert_eq!(od.dataset_directory(), "od");
    assert_eq!(
        ds.description(),
        "2019 LODES8 SA01 Workplace Area Characteristic data, JT00 jobs are totaled by work Census Block"
    );
}

#[test]
fn state_codes_round_trip() {
    assert_eq!(StateCode::from_state_fips(5), Some(StateCode::Arkansas));
    assert_eq!(StateCode::from_state_fips(2), Some(StateCode::Alaska));
    assert_eq!(StateCode::from_state_fips(3), None);
    assert_eq!(StateCode::from_state_fips(57), None);
    assert_eq!(StateCode::Arkansas.to_fips(), 5);
    assert_eq!(StateCode::Arkansas.to_state_abbreviation(), "ar");
    assert_eq!(StateCode::Wyoming.to_state_abbreviation(), "wy");
    assert_eq!(StateCode::from_state_fips(StateCode::NewYork.to_fips()), Some(StateCode::NewYork));
}

#[test]
fn error_messages() {
    assert_eq!(
        CensusError::MalformedComponent.message(),
        "malformed component: expected a digit string"
    );
    assert_eq!(
        CensusError::UnsupportedLength(3).message(),
        "unsupported GEOID length 3"
    );
    assert_eq!(
        CensusError::NotAnAncestor(GeoidType::CensusTract, GeoidType::Place).message(),
        "place not a parent type of census tract, cannot truncate geoid"
    );
    assert_eq!(
        CensusError::DataUnavailable(2002, StateCode::Arkansas).message(),
        "WAC is not available in 2002 for ar"
    );
}

#[test]
fn acs_type_codes() {
    assert_eq!(AcsType::OneYear.to_directory_name(), "acs1");
    assert_eq!(AcsType::FiveYear.to_directory_name(), "acs5");
    assert_eq!(AcsType::OneYear.to_int(), 1);
    assert_eq!(AcsType::FiveYear.to_int(), 5);
    assert_eq!(AcsType::from_int(1), Some(AcsType::OneYear));
    assert_eq!(AcsType::from_int(5), Some(AcsType::FiveYear));
    assert_eq!(AcsType::from_int(3), None);
}
