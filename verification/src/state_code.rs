//! The states of the union (and the federal district), keyed by their
//! two-digit numeric codes, with the two-letter abbreviations used in
//! bulk-dataset paths.

use vstd::prelude::*;

verus! {

/// A state known to the statistical agency's numbering scheme.
#[derive(Clone, Copy, Debug, PartialEq, Eq, Structural, Hash)]
pub enum StateCode {
    Alabama,
    Alaska,
    Arizona,
    Arkansas,
    California,
    Colorado,
    Connecticut,
    Delaware,
    DistrictOfColumbia,
    Florida,
    Georgia,
    Hawaii,
    Idaho,
    Illinois,
    Indiana,
    Iowa,
    Kansas,
    Kentucky,
    Louisiana,
    Maine,
    Maryland,
    Massachusetts,
    Michigan,
    Minnesota,
    Mississippi,
    Missouri,
    Montana,
    Nebraska,
    Nevada,
    NewHampshire,
    NewJersey,
    NewMexico,
    NewYork,
    NorthCarolina,
    NorthDakota,
    Ohio,
    Oklahoma,
    Oregon,
    Pennsylvania,
    RhodeIsland,
    SouthCarolina,
    SouthDakota,
    Tennessee,
    Texas,
    Utah,
    Vermont,
    Virginia,
    Washington,
    WestVirginia,
    Wisconsin,
    Wyoming,
}

/// The state for a numeric code, if the code is assigned: the inverse of
/// [`StateCode::spec_fips`].
pub open spec fn spec_state_of_fips(v: nat) -> Option<StateCode> {
    if v == 1 {
        Some(StateCode::Alabama)
    } else if v == 2 {
        Some(StateCode::Alaska)
    } else if v == 4 {
        Some(StateCode::Arizona)
    } else if v == 5 {
        Some(StateCode::Arkansas)
    } else if v == 6 {
        Some(StateCode::California)
    } else if v == 8 {
        Some(StateCode::Colorado)
    } else if v == 9 {
        Some(StateCode::Connecticut)
    } else if v == 10 {
        Some(StateCode::Delaware)
    } else if v == 11 {
        Some(StateCode::DistrictOfColumbia)
    } else if v == 12 {
        Some(StateCode::Florida)
    } else if v == 13 {
        Some(StateCode::Georgia)
    } else if v == 15 {
        Some(StateCode::Hawaii)
    } else if v == 16 {
        Some(StateCode::Idaho)
    } else if v == 17 {
        Some(StateCode::Illinois)
    } else if v == 18 {
        Some(StateCode::Indiana)
    } else if v == 19 {
        Some(StateCode::Iowa)
    } else if v == 20 {
        Some(StateCode::Kansas)
    } else if v == 21 {
        Some(StateCode::Kentucky)
    } else if v == 22 {
        Some(StateCode::Louisiana)
    } else if v == 23 {
        Some(StateCode::Maine)
    } else if v == 24 {
        Some(StateCode::Maryland)
    } else if v == 25 {
        Some(StateCode::Massachusetts)
    } else if v == 26 {
        Some(StateCode::Michigan)
    } else if v == 27 {
        Some(StateCode::Minnesota)
    } else if v == 28 {
        Some(StateCode::Mississippi)
    } else if v == 29 {
        Some(StateCode::Missouri)
    } else if v == 30 {
        Some(StateCode::Montana)
    } else if v == 31 {
        Some(StateCode::Nebraska)
    } else if v == 32 {
        Some(StateCode::Nevada)
    } else if v == 33 {
        Some(StateCode::NewHampshire)
    } else if v == 34 {
        Some(StateCode::NewJersey)
    } else if v == 35 {
        Some(StateCode::NewMexico)
    } else if v == 36 {
        Some(StateCode::NewYork)
    } else if v == 37 {
        Some(StateCode::NorthCarolina)
    } else if v == 38 {
        Some(StateCode::NorthDakota)
    } else if v == 39 {
        Some(StateCode::Ohio)
    } else if v == 40 {
        Some(StateCode::Oklahoma)
    } else if v == 41 {
        Some(StateCode::Oregon)
    } else if v == 42 {
        Some(StateCode::Pennsylvania)
    } else if v == 44 {
        Some(StateCode::RhodeIsland)
    } else if v == 45 {
        Some(StateCode::SouthCarolina)
    } else if v == 46 {
        Some(StateCode::SouthDakota)
    } else if v == 47 {
        Some(StateCode::Tennessee)
    } else if v == 48 {
        Some(StateCode::Texas)
    } else if v == 49 {
        Some(StateCode::Utah)
    } else if v == 50 {
        Some(StateCode::Vermont)
    } else if v == 51 {
        Some(StateCode::Virginia)
    } else if v == 53 {
        Some(StateCode::Washington)
    } else if v == 54 {
        Some(StateCode::WestVirginia)
    } else if v == 55 {
        Some(StateCode::Wisconsin)
    } else if v == 56 {
        Some(StateCode::Wyoming)
    } else {
        None
    }
}

impl StateCode {
    /// The state's two-digit numeric code.
    pub open spec fn spec_fips(self) -> nat {
        match self {
            StateCode::Alabama => 1,
            StateCode::Alaska => 2,
            StateCode::Arizona => 4,
            StateCode::Arkansas => 5,
            StateCode::California => 6,
            StateCode::Colorado => 8,
            StateCode::Connecticut => 9,
            StateCode::Delaware => 10,
            StateCode::DistrictOfColumbia => 11,
            StateCode::Florida => 12,
            StateCode::Georgia => 13,
            StateCode::Hawaii => 15,
            StateCode::Idaho => 16,
            StateCode::Illinois => 17,
            StateCode::Indiana => 18,
            StateCode::Iowa => 19,
            StateCode::Kansas => 20,
            StateCode::Kentucky => 21,
            StateCode::Louisiana => 22,
            StateCode::Maine => 23,
            StateCode::Maryland => 24,
            StateCode::Massachusetts => 25,
            StateCode::Michigan => 26,
            StateCode::Minnesota => 27,
            StateCode::Mississippi => 28,
            StateCode::Missouri => 29,
            StateCode::Montana => 30,
            StateCode::Nebraska => 31,
            StateCode::Nevada => 32,
            StateCode::NewHampshire => 33,
            StateCode::NewJersey => 34,
            StateCode::NewMexico => 35,
            StateCode::NewYork => 36,
            StateCode::NorthCarolina => 37,
            StateCode::NorthDakota => 38,
            StateCode::Ohio => 39,
            StateCode::Oklahoma => 40,
            StateCode::Oregon => 41,
            StateCode::Pennsylvania => 42,
            StateCode::RhodeIsland => 44,
            StateCode::SouthCarolina => 45,
            StateCode::SouthDakota => 46,
            StateCode::Tennessee => 47,
            StateCode::Texas => 48,
            StateCode::Utah => 49,
            StateCode::Vermont => 50,
            StateCode::Virginia => 51,
            StateCode::Washington => 53,
            StateCode::WestVirginia => 54,
            StateCode::Wisconsin => 55,
            StateCode::Wyoming => 56,
        }
    }

    /// The state for a numeric code, if the code is assigned.
    pub fn from_state_fips(v: u64) -> (r: Option<StateCode>)
        ensures
            r == spec_state_of_fips(v as nat),
            r matches Some(sc) ==> sc.spec_fips() == v as nat,
    {
        match v {
            1 => Some(StateCode::Alabama),
            2 => Some(StateCode::Alaska),
            4 => Some(StateCode::Arizona),
            5 => Some(StateCode::Arkansas),
            6 => Some(StateCode::California),
            8 => Some(StateCode::Colorado),
            9 => Some(StateCode::Connecticut),
            10 => Some(StateCode::Delaware),
            11 => Some(StateCode::DistrictOfColumbia),
            12 => Some(StateCode::Florida),
            13 => Some(StateCode::Georgia),
            15 => Some(StateCode::Hawaii),
            16 => Some(StateCode::Idaho),
            17 => Some(StateCode::Illinois),
            18 => Some(StateCode::Indiana),
            19 => Some(StateCode::Iowa),
            20 => Some(StateCode::Kansas),
            21 => Some(StateCode::Kentucky),
            22 => Some(StateCode::Louisiana),
            23 => Some(StateCode::Maine),
            24 => Some(StateCode::Maryland),
            25 => Some(StateCode::Massachusetts),
            26 => Some(StateCode::Michigan),
            27 => Some(StateCode::Minnesota),
            28 => Some(StateCode::Mississippi),
            29 => Some(StateCode::Missouri),
            30 => Some(StateCode::Montana),
            31 => Some(StateCode::Nebraska),
            32 => Some(StateCode::Nevada),
            33 => Some(StateCode::NewHampshire),
            34 => Some(StateCode::NewJersey),
            35 => Some(StateCode::NewMexico),
            36 => Some(StateCode::NewYork),
            37 => Some(StateCode::NorthCarolina),
            38 => Some(StateCode::NorthDakota),
            39 => Some(StateCode::Ohio),
            40 => Some(StateCode::Oklahoma),
            41 => Some(StateCode::Oregon),
            42 => Some(StateCode::Pennsylvania),
            44 => Some(StateCode::RhodeIsland),
            45 => Some(StateCode::SouthCarolina),
            46 => Some(StateCode::SouthDakota),
            47 => Some(StateCode::Tennessee),
            48 => Some(StateCode::Texas),
            49 => Some(StateCode::Utah),
            50 => Some(StateCode::Vermont),
            51 => Some(StateCode::Virginia),
            53 => Some(StateCode::Washington),
            54 => Some(StateCode::WestVirginia),
            55 => Some(StateCode::Wisconsin),
            56 => Some(StateCode::Wyoming),
            _ => None,
        }
    }

    /// The state's numeric code, as a machine integer.
    pub fn to_fips(&self) -> (r: u64)
        ensures
            r as nat == self.spec_fips(),
    {
        match self {
            StateCode::Alabama => 1,
            StateCode::Alaska => 2,
            StateCode::Arizona => 4,
            StateCode::Arkansas => 5,
            StateCode::California => 6,
            StateCode::Colorado => 8,
            StateCode::Connecticut => 9,
            StateCode::Delaware => 10,
            StateCode::DistrictOfColumbia => 11,
            StateCode::Florida => 12,
            StateCode::Georgia => 13,
            StateCode::Hawaii => 15,
            StateCode::Idaho => 16,
            StateCode::Illinois => 17,
            StateCode::Indiana => 18,
            StateCode::Iowa => 19,
            StateCode::Kansas => 20,
            StateCode::Kentucky => 21,
            StateCode::Louisiana => 22,
            StateCode::Maine => 23,
            StateCode::Maryland => 24,
            StateCode::Massachusetts => 25,
            StateCode::Michigan => 26,
            StateCode::Minnesota => 27,
            StateCode::Mississippi => 28,
            StateCode::Missouri => 29,
            StateCode::Montana => 30,
            StateCode::Nebraska => 31,
            StateCode::Nevada => 32,
            StateCode::NewHampshire => 33,
            StateCode::NewJersey => 34,
            StateCode::NewMexico => 35,
            StateCode::NewYork => 36,
            StateCode::NorthCarolina => 37,
            StateCode::NorthDakota => 38,
            StateCode::Ohio => 39,
            StateCode::Oklahoma => 40,
            StateCode::Oregon => 41,
            StateCode::Pennsylvania => 42,
            StateCode::RhodeIsland => 44,
            StateCode::SouthCarolina => 45,
            StateCode::SouthDakota => 46,
            StateCode::Tennessee => 47,
            StateCode::Texas => 48,
            StateCode::Utah => 49,
            StateCode::Vermont => 50,
            StateCode::Virginia => 51,
            StateCode::Washington => 53,
            StateCode::WestVirginia => 54,
            StateCode::Wisconsin => 55,
            StateCode::Wyoming => 56,
        }
    }

    /// The state's two-letter abbreviation, in the lower-case form used in
    /// bulk-dataset directory and file names.
    pub open spec fn spec_abbreviation(self) -> Seq<char> {
        match self {
            StateCode::Alabama => "al"@,
            StateCode::Alaska => "ak"@,
            StateCode::Arizona => "az"@,
            StateCode::Arkansas => "ar"@,
            StateCode::California => "ca"@,
            StateCode::Colorado => "co"@,
            StateCode::Connecticut => "ct"@,
            StateCode::Delaware => "de"@,
            StateCode::DistrictOfColumbia => "dc"@,
            StateCode::Florida => "fl"@,
            StateCode::Georgia => "ga"@,
            StateCode::Hawaii => "hi"@,
            StateCode::Idaho => "id"@,
            StateCode::Illinois => "il"@,
            StateCode::Indiana => "in"@,
            StateCode::Iowa => "ia"@,
            StateCode::Kansas => "ks"@,
            StateCode::Kentucky => "ky"@,
            StateCode::Louisiana => "la"@,
            StateCode::Maine => "me"@,
            StateCode::Maryland => "md"@,
            StateCode::Massachusetts => "ma"@,
            StateCode::Michigan => "mi"@,
            StateCode::Minnesota => "mn"@,
            StateCode::Mississippi => "ms"@,
            StateCode::Missouri => "mo"@,
            StateCode::Montana => "mt"@,
            StateCode::Nebraska => "ne"@,
            StateCode::Nevada => "nv"@,
            StateCode::NewHampshire => "nh"@,
            StateCode::NewJersey => "nj"@,
            StateCode::NewMexico => "nm"@,
            StateCode::NewYork => "ny"@,
            StateCode::NorthCarolina => "nc"@,
            StateCode::NorthDakota => "nd"@,
            StateCode::Ohio => "oh"@,
            StateCode::Oklahoma => "ok"@,
            StateCode::Oregon => "or"@,
            StateCode::Pennsylvania => "pa"@,
            StateCode::RhodeIsland => "ri"@,
            StateCode::SouthCarolina => "sc"@,
            StateCode::SouthDakota => "sd"@,
            StateCode::Tennessee => "tn"@,
            StateCode::Texas => "tx"@,
            StateCode::Utah => "ut"@,
            StateCode::Vermont => "vt"@,
            StateCode::Virginia => "va"@,
            StateCode::Washington => "wa"@,
            StateCode::WestVirginia => "wv"@,
            StateCode::Wisconsin => "wi"@,
            StateCode::Wyoming => "wy"@,
        }
    }

    /// The state's two-letter abbreviation, in the lower-case form used in
    /// bulk-dataset directory and file names.
    pub fn to_state_abbreviation(&self) -> (r: String)
        ensures
            r@ == self.spec_abbreviation(),
    {
        match self {
            StateCode::Alabama => String::from_str("al"),
            StateCode::Alaska => String::from_str("ak"),
            StateCode::Arizona => String::from_str("az"),
            StateCode::Arkansas => String::from_str("ar"),
            StateCode::California => String::from_str("ca"),
            StateCode::Colorado => String::from_str("co"),
            StateCode::Connecticut => String::from_str("ct"),
            StateCode::Delaware => String::from_str("de"),
            StateCode::DistrictOfColumbia => String::from_str("dc"),
            StateCode::Florida => String::from_str("fl"),
            StateCode::Georgia => String::from_str("ga"),
            StateCode::Hawaii => String::from_str("hi"),
            StateCode::Idaho => String::from_str("id"),
            StateCode::Illinois => String::from_str("il"),
            StateCode::Indiana => String::from_str("in"),
            StateCode::Iowa => String::from_str("ia"),
            StateCode::Kansas => String::from_str("ks"),
            StateCode::Kentucky => String::from_str("ky"),
            StateCode::Louisiana => String::from_str("la"),
            StateCode::Maine => String::from_str("me"),
            StateCode::Maryland => String::from_str("md"),
            StateCode::Massachusetts => String::from_str("ma"),
            StateCode::Michigan => String::from_str("mi"),
            StateCode::Minnesota => String::from_str("mn"),
            StateCode::Mississippi => String::from_str("ms"),
            StateCode::Missouri => String::from_str("mo"),
            StateCode::Montana => String::from_str("mt"),
            StateCode::Nebraska => String::from_str("ne"),
            StateCode::Nevada => String::from_str("nv"),
            StateCode::NewHampshire => String::from_str("nh"),
            StateCode::NewJersey => String::from_str("nj"),
            StateCode::NewMexico => String::from_str("nm"),
            StateCode::NewYork => String::from_str("ny"),
            StateCode::NorthCarolina => String::from_str("nc"),
            StateCode::NorthDakota => String::from_str("nd"),
            StateCode::Ohio => String::from_str("oh"),
            StateCode::Oklahoma => String::from_str("ok"),
            StateCode::Oregon => String::from_str("or"),
            StateCode::Pennsylvania => String::from_str("pa"),
            StateCode::RhodeIsland => String::from_str("ri"),
            StateCode::SouthCarolina => String::from_str("sc"),
            StateCode::SouthDakota => String::from_str("sd"),
            StateCode::Tennessee => String::from_str("tn"),
            StateCode::Texas => String::from_str("tx"),
            StateCode::Utah => String::from_str("ut"),
            StateCode::Vermont => String::from_str("vt"),
            StateCode::Virginia => String::from_str("va"),
            StateCode::Washington => String::from_str("wa"),
            StateCode::WestVirginia => String::from_str("wv"),
            StateCode::Wisconsin => String::from_str("wi"),
            StateCode::Wyoming => String::from_str("wy"),
        }
    }
}

} // verus!
