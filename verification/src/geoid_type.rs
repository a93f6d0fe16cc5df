//! The seven levels of the geographic identifier hierarchy, and parsing of
//! encoded identifier strings into [`crate::geoid::Geoid`] values.
//!
//! Every level has a fixed total encoded width; decoding dispatches purely
//! on input length. Block is the one level with two accepted widths.

use vstd::prelude::*;

use crate::codec::{all_digits, nat_of_digits, parseable_u64, parse_u64};
use crate::error::CensusError;
use crate::fips;
use crate::geoid::{Geoid, GeoidModel, result_model};

verus! {

/// One level of the geographic hierarchy, from coarsest (state) to finest
/// (block). The levels form a forest, not a chain: county and place both
/// descend directly from state, and block descends from census tract.
#[derive(Clone, Copy, Debug, PartialEq, Eq, Structural, Hash)]
pub enum GeoidType {
    State,
    County,
    CountySubdivision,
    Place,
    CensusTract,
    BlockGroup,
    Block,
}

/// The level that an encoded identifier string of the given length decodes
/// to, if any. No two levels share a width, except that block accepts both
/// fifteen and sixteen digits.
pub open spec fn level_of_len(n: nat) -> Option<GeoidType> {
    if n == 2 {
        Some(GeoidType::State)
    } else if n == 5 {
        Some(GeoidType::County)
    } else if n == 7 {
        Some(GeoidType::Place)
    } else if n == 10 {
        Some(GeoidType::CountySubdivision)
    } else if n == 11 {
        Some(GeoidType::CensusTract)
    } else if n == 12 {
        Some(GeoidType::BlockGroup)
    } else if n == 15 || n == 16 {
        Some(GeoidType::Block)
    } else {
        None
    }
}

impl GeoidType {
    /// The canonical encoded width of an identifier at this level
    /// (block's shorter accepted form).
    pub open spec fn spec_width(self) -> nat {
        match self {
            GeoidType::State => 2,
            GeoidType::County => 5,
            GeoidType::CountySubdivision => 10,
            GeoidType::Place => 7,
            GeoidType::CensusTract => 11,
            GeoidType::BlockGroup => 12,
            GeoidType::Block => 15,
        }
    }

    /// Whether an input of length `n` is accepted when decoding at this level.
    pub open spec fn len_matches(self, n: nat) -> bool {
        if self is Block {
            n == 15 || n == 16
        } else {
            n == self.spec_width()
        }
    }

    /// The lower-case English name of the level.
    pub open spec fn spec_name(self) -> Seq<char> {
        match self {
            GeoidType::State => "state"@,
            GeoidType::County => "county"@,
            GeoidType::CountySubdivision => "county subdivision"@,
            GeoidType::Place => "place"@,
            GeoidType::CensusTract => "census tract"@,
            GeoidType::BlockGroup => "block group"@,
            GeoidType::Block => "block"@,
        }
    }

    /// The lower-case English name of the level.
    pub fn name(&self) -> (r: String)
        ensures
            r@ == self.spec_name(),
    {
        match self {
            GeoidType::State => String::from_str("state"),
            GeoidType::County => String::from_str("county"),
            GeoidType::CountySubdivision => String::from_str("county subdivision"),
            GeoidType::Place => String::from_str("place"),
            GeoidType::CensusTract => String::from_str("census tract"),
            GeoidType::BlockGroup => String::from_str("block group"),
            GeoidType::Block => String::from_str("block"),
        }
    }
}

/// Whether `dst` is a strict ancestor of `src` in the hierarchy forest.
/// County and place both descend directly from state; county subdivision
/// and census tract descend from county; block group and block each
/// descend from census tract (a block group is not an ancestor of a
/// block).
pub open spec fn forest_ancestor(dst: GeoidType, src: GeoidType) -> bool {
    match src {
        GeoidType::State => false,
        GeoidType::County => dst is State,
        GeoidType::CountySubdivision => dst is County || dst is State,
        GeoidType::Place => dst is State,
        GeoidType::CensusTract => dst is County || dst is State,
        GeoidType::BlockGroup => dst is CensusTract || dst is County || dst is State,
        GeoidType::Block => dst is CensusTract || dst is County || dst is State,
    }
}

/// The fixed-width segments that an encoded string of level `t` is sliced
/// into before each segment is decoded on its own.
pub open spec fn spec_segments(t: GeoidType, s: Seq<char>) -> Seq<Seq<char>> {
    let n = s.len() as int;
    match t {
        GeoidType::State => seq![s.subrange(0, 2)],
        GeoidType::County => seq![s.subrange(0, 2), s.subrange(2, 5)],
        GeoidType::CountySubdivision => seq![
            s.subrange(0, 2),
            s.subrange(2, 5),
            s.subrange(5, 10),
        ],
        GeoidType::Place => seq![s.subrange(0, 2), s.subrange(2, 7)],
        GeoidType::CensusTract => seq![s.subrange(0, 2), s.subrange(2, 5), s.subrange(5, 11)],
        GeoidType::BlockGroup => seq![
            s.subrange(0, 2),
            s.subrange(2, 5),
            s.subrange(5, 11),
            s.subrange(11, 12),
        ],
        GeoidType::Block => seq![
            s.subrange(0, 2),
            s.subrange(2, 5),
            s.subrange(5, 11),
            s.subrange(11, n),
        ],
    }
}

/// Decoding one level from its already-sliced segments: every numeric
/// segment must parse as an unsigned integer, the segment count must match
/// the level, and a block's trailing segment may be any nonempty digit
/// string (kept verbatim, preserving leading zeros).
pub open spec fn spec_from_segments(t: GeoidType, vs: Seq<Seq<char>>) -> Result<
    GeoidModel,
    CensusError,
> {
    match t {
        GeoidType::State => {
            if vs.len() != 1 {
                Err(CensusError::MalformedComponent)
            } else if !parseable_u64(vs[0]) {
                Err(CensusError::MalformedComponent)
            } else {
                Ok(GeoidModel::State(nat_of_digits(vs[0])))
            }
        },
        GeoidType::County => {
            if vs.len() != 2 {
                Err(CensusError::MalformedComponent)
            } else if !parseable_u64(vs[0]) || !parseable_u64(vs[1]) {
                Err(CensusError::MalformedComponent)
            } else {
                Ok(GeoidModel::County(nat_of_digits(vs[0]), nat_of_digits(vs[1])))
            }
        },
        GeoidType::CountySubdivision => {
            if vs.len() != 3 {
                Err(CensusError::MalformedComponent)
            } else if !parseable_u64(vs[0]) || !parseable_u64(vs[1]) || !parseable_u64(vs[2]) {
                Err(CensusError::MalformedComponent)
            } else {
                Ok(GeoidModel::CountySubdivision(
                    nat_of_digits(vs[0]),
                    nat_of_digits(vs[1]),
                    nat_of_digits(vs[2]),
                ))
            }
        },
        GeoidType::Place => {
            if vs.len() != 2 {
                Err(CensusError::MalformedComponent)
            } else if !parseable_u64(vs[0]) || !parseable_u64(vs[1]) {
                Err(CensusError::MalformedComponent)
            } else {
                Ok(GeoidModel::Place(nat_of_digits(vs[0]), nat_of_digits(vs[1])))
            }
        },
        GeoidType::CensusTract => {
            if vs.len() != 3 {
                Err(CensusError::MalformedComponent)
            } else if !parseable_u64(vs[0]) || !parseable_u64(vs[1]) || !parseable_u64(vs[2]) {
                Err(CensusError::MalformedComponent)
            } else {
                Ok(GeoidModel::CensusTract(
                    nat_of_digits(vs[0]),
                    nat_of_digits(vs[1]),
                    nat_of_digits(vs[2]),
                ))
            }
        },
        GeoidType::BlockGroup => {
            if vs.len() != 4 {
                Err(CensusError::MalformedComponent)
            } else if !parseable_u64(vs[0]) || !parseable_u64(vs[1]) || !parseable_u64(vs[2])
                || !parseable_u64(vs[3]) {
                Err(CensusError::MalformedComponent)
            } else {
                Ok(GeoidModel::BlockGroup(
                    nat_of_digits(vs[0]),
                    nat_of_digits(vs[1]),
                    nat_of_digits(vs[2]),
                    nat_of_digits(vs[3]),
                ))
            }
        },
        GeoidType::Block => {
            if vs.len() != 4 {
                Err(CensusError::MalformedComponent)
            } else if !parseable_u64(vs[0]) || !parseable_u64(vs[1]) || !parseable_u64(vs[2]) {
                Err(CensusError::MalformedComponent)
            } else if !(vs[3].len() >= 1 && all_digits(vs[3])) {
                Err(CensusError::MalformedComponent)
            } else {
                Ok(GeoidModel::Block(
                    nat_of_digits(vs[0]),
                    nat_of_digits(vs[1]),
                    nat_of_digits(vs[2]),
                    vs[3],
                ))
            }
        },
    }
}

/// Decoding one level from a whole encoded string: the length must match
/// the level, and then the fixed-width segments are decoded.
pub open spec fn spec_geoid_from_string(t: GeoidType, s: Seq<char>) -> Result<
    GeoidModel,
    CensusError,
> {
    if !t.len_matches(s.len()) {
        Err(CensusError::UnsupportedLength(s.len() as usize))
    } else {
        spec_from_segments(t, spec_segments(t, s))
    }
}

/// Decoding with the level chosen by the input length alone.
pub open spec fn spec_parse(s: Seq<char>) -> Result<GeoidModel, CensusError> {
    match level_of_len(s.len()) {
        Some(t) => spec_geoid_from_string(t, s),
        None => Err(CensusError::UnsupportedLength(s.len() as usize)),
    }
}

/// Convert a slice of digit strings into the numbers they denote, used to
/// build the numeric identifier components. Fails with
/// [`CensusError::MalformedComponent`] as soon as one entry is not a
/// nonempty digit string denoting a machine integer.
pub fn as_usizes(arr: &[String]) -> (r: Result<Vec<u64>, CensusError>)
    ensures
        r is Ok <==> (forall|i: int|
            0 <= i < arr@.len() ==> parseable_u64(#[trigger] arr.deep_view()[i])),
        r matches Ok(v) ==> {
            &&& v@.len() == arr@.len()
            &&& forall|i: int|
                0 <= i < arr@.len() ==> #[trigger] v@[i] == nat_of_digits(arr.deep_view()[i])
        },
        r matches Err(e) ==> e == CensusError::MalformedComponent,
{
    let n = arr.len();
    let mut out: Vec<u64> = Vec::new();
    let mut i: usize = 0;
    while i < n
        invariant
            0 <= i <= n,
            n == arr@.len(),
            out@.len() == i,
            forall|j: int| 0 <= j < i ==> parseable_u64(#[trigger] arr.deep_view()[j]),
            forall|j: int| 0 <= j < i ==> #[trigger] out@[j] == nat_of_digits(arr.deep_view()[j]),
        decreases n - i,
    {
        proof {
            assert(arr.deep_view()[i as int] == arr@[i as int]@);
        }
        match parse_u64(arr[i].as_str()) {
            Some(v) => out.push(v),
            None => {
                return Err(CensusError::MalformedComponent);
            },
        }
        i += 1;
    }
    Ok(out)
}

impl GeoidType {
    /// Decode a whole encoded identifier string at this level: the length
    /// must match the level's fixed width, and each fixed-width segment
    /// must be a digit string.
    pub fn geoid_from_string(&self, value: &String) -> (r: Result<Geoid, CensusError>)
        ensures
            result_model(r) == spec_geoid_from_string(*self, value@),
    {
        let n = value.as_str().unicode_len();
        let ok_len = match self {
            GeoidType::Block => n == 15 || n == 16,
            _ => n == self.width(),
        };
        if !ok_len {
            return Err(CensusError::UnsupportedLength(n));
        }
        let s = value.as_str();
        let r = match self {
            GeoidType::State => {
                let segs = vec![String::from_str(s.substring_char(0, 2))];
                self.geoid_from_slice_of_strings(segs.as_slice())
            },
            GeoidType::County => {
                let segs = vec![
                    String::from_str(s.substring_char(0, 2)),
                    String::from_str(s.substring_char(2, 5)),
                ];
                self.geoid_from_slice_of_strings(segs.as_slice())
            },
            GeoidType::CountySubdivision => {
                let segs = vec![
                    String::from_str(s.substring_char(0, 2)),
                    String::from_str(s.substring_char(2, 5)),
                    String::from_str(s.substring_char(5, 10)),
                ];
                self.geoid_from_slice_of_strings(segs.as_slice())
            },
            GeoidType::Place => {
                let segs = vec![
                    String::from_str(s.substring_char(0, 2)),
                    String::from_str(s.substring_char(2, 7)),
                ];
                self.geoid_from_slice_of_strings(segs.as_slice())
            },
            GeoidType::CensusTract => {
                let segs = vec![
                    String::from_str(s.substring_char(0, 2)),
                    String::from_str(s.substring_char(2, 5)),
                    String::from_str(s.substring_char(5, 11)),
                ];
                self.geoid_from_slice_of_strings(segs.as_slice())
            },
            GeoidType::BlockGroup => {
                let segs = vec![
                    String::from_str(s.substring_char(0, 2)),
                    String::from_str(s.substring_char(2, 5)),
                    String::from_str(s.substring_char(5, 11)),
                    String::from_str(s.substring_char(11, 12)),
                ];
                self.geoid_from_slice_of_strings(segs.as_slice())
            },
            GeoidType::Block => {
                let segs = vec![
                    String::from_str(s.substring_char(0, 2)),
                    String::from_str(s.substring_char(2, 5)),
                    String::from_str(s.substring_char(5, 11)),
                    String::from_str(s.substring_char(11, n)),
                ];
                self.geoid_from_slice_of_strings(segs.as_slice())
            },
        };
        r
    }

    /// The canonical encoded width of this level, as a machine integer.
    pub fn width(&self) -> (r: usize)
        ensures
            r == self.spec_width(),
    {
        match self {
            GeoidType::State => 2,
            GeoidType::County => 5,
            GeoidType::CountySubdivision => 10,
            GeoidType::Place => 7,
            GeoidType::CensusTract => 11,
            GeoidType::BlockGroup => 12,
            GeoidType::Block => 15,
        }
    }

    /// Decode one identifier from already-sliced digit strings, one entry
    /// per component of this level, root first. A block's final entry is
    /// kept verbatim as its raw digit string.
    pub fn geoid_from_slice_of_strings(&self, vals: &[String]) -> (r: Result<Geoid, CensusError>)
        ensures
            result_model(r) == spec_from_segments(*self, vals.deep_view()),
    {
        match self {
            GeoidType::State => {
                let arr = as_usizes(vals)?;
                if arr.len() != 1 {
                    Err(CensusError::MalformedComponent)
                } else {
                    Ok(Geoid::State(fips::State(arr[0])))
                }
            },
            GeoidType::County => {
                let arr = as_usizes(vals)?;
                if arr.len() != 2 {
                    Err(CensusError::MalformedComponent)
                } else {
                    Ok(Geoid::County(fips::State(arr[0]), fips::County(arr[1])))
                }
            },
            GeoidType::CountySubdivision => {
                let arr = as_usizes(vals)?;
                if arr.len() != 3 {
                    Err(CensusError::MalformedComponent)
                } else {
                    Ok(Geoid::CountySubdivision(
                        fips::State(arr[0]),
                        fips::County(arr[1]),
                        fips::CountySubdivision(arr[2]),
                    ))
                }
            },
            GeoidType::Place => {
                let arr = as_usizes(vals)?;
                if arr.len() != 2 {
                    Err(CensusError::MalformedComponent)
                } else {
                    Ok(Geoid::Place(fips::State(arr[0]), fips::Place(arr[1])))
                }
            },
            GeoidType::CensusTract => {
                let arr = as_usizes(vals)?;
                if arr.len() != 3 {
                    Err(CensusError::MalformedComponent)
                } else {
                    Ok(Geoid::CensusTract(
                        fips::State(arr[0]),
                        fips::County(arr[1]),
                        fips::CensusTract(arr[2]),
                    ))
                }
            },
            GeoidType::BlockGroup => {
                let arr = as_usizes(vals)?;
                if arr.len() != 4 {
                    Err(CensusError::MalformedComponent)
                } else {
                    Ok(Geoid::BlockGroup(
                        fips::State(arr[0]),
                        fips::County(arr[1]),
                        fips::CensusTract(arr[2]),
                        fips::BlockGroup(arr[3]),
                    ))
                }
            },
            GeoidType::Block => {
                if vals.len() != 4 {
                    return Err(CensusError::MalformedComponent);
                }
                let s = parse_u64(vals[0].as_str());
                let c = parse_u64(vals[1].as_str());
                let t = parse_u64(vals[2].as_str());
                match (s, c, t) {
                    (Some(s), Some(c), Some(t)) => {
                        let raw = &vals[3];
                        if raw.as_str().unicode_len() == 0 || !is_digit_string(raw.as_str()) {
                            Err(CensusError::MalformedComponent)
                        } else {
                            Ok(Geoid::Block(
                                fips::State(s),
                                fips::County(c),
                                fips::CensusTract(t),
                                fips::Block(raw.clone()),
                            ))
                        }
                    },
                    _ => Err(CensusError::MalformedComponent),
                }
            },
        }
    }
}

/// A short all-digit segment of a longer digit string is parseable as a
/// machine integer.
proof fn lemma_digit_segment_parseable(s: Seq<char>, a: int, b: int)
    requires
        all_digits(s),
        0 <= a < b <= s.len(),
        b - a <= 6,
    ensures
        all_digits(s.subrange(a, b)),
        parseable_u64(s.subrange(a, b)),
        nat_of_digits(s.subrange(a, b)) < crate::codec::pow10((b - a) as nat),
{
    let sub = s.subrange(a, b);
    assert(all_digits(sub)) by {
        assert(forall|i: int| 0 <= i < sub.len() ==> #[trigger] sub[i] == s[a + i]);
    }
    crate::codec::lemma_nat_of_digits_bound(sub);
    crate::codec::lemma_pow10_mono(sub.len() as nat, 6);
    assert(crate::codec::pow10(6) == 1000000) by {
        reveal_with_fuel(crate::codec::pow10, 7);
    }
}

/// Law: length dispatch is exhaustive and collision-free. A string whose
/// length is an accepted width and whose characters are all digits parses
/// to exactly the one level determined by its length; a string of any
/// other length fails with `UnsupportedLength`.
pub proof fn lemma_length_dispatch(s: Seq<char>)
    ensures
        level_of_len(s.len()) is None ==> spec_parse(s) == Err::<GeoidModel, CensusError>(
            CensusError::UnsupportedLength(s.len() as usize),
        ),
        all_digits(s) ==> (level_of_len(s.len()) matches Some(t) ==> (spec_parse(s) matches Ok(g)
            && g.level() == t)),
{
    if level_of_len(s.len()) is Some && all_digits(s) {
        let n = s.len() as int;
        if s.len() == 2 {
            lemma_digit_segment_parseable(s, 0, 2);
        } else if s.len() == 5 {
            lemma_digit_segment_parseable(s, 0, 2);
            lemma_digit_segment_parseable(s, 2, 5);
        } else if s.len() == 7 {
            lemma_digit_segment_parseable(s, 0, 2);
            lemma_digit_segment_parseable(s, 2, 7);
        } else if s.len() == 10 {
            lemma_digit_segment_parseable(s, 0, 2);
            lemma_digit_segment_parseable(s, 2, 5);
            lemma_digit_segment_parseable(s, 5, 10);
        } else if s.len() == 11 {
            lemma_digit_segment_parseable(s, 0, 2);
            lemma_digit_segment_parseable(s, 2, 5);
            lemma_digit_segment_parseable(s, 5, 11);
        } else if s.len() == 12 {
            lemma_digit_segment_parseable(s, 0, 2);
            lemma_digit_segment_parseable(s, 2, 5);
            lemma_digit_segment_parseable(s, 5, 11);
            lemma_digit_segment_parseable(s, 11, 12);
        } else {
            lemma_digit_segment_parseable(s, 0, 2);
            lemma_digit_segment_parseable(s, 2, 5);
            lemma_digit_segment_parseable(s, 5, 11);
            let tail = s.subrange(11, n);
            assert(all_digits(tail)) by {
                assert(forall|i: int|
                    0 <= i < tail.len() ==> #[trigger] tail[i] == s[11 + i]);
            }
        }
    }
}

/// Law: parsing yields only syntactically valid identifiers — every
/// component of a parsed value fits its fixed encoded width. Together
/// with the round-trip law, every parsed identifier renders back to its
/// input.
pub proof fn lemma_parse_wf(s: Seq<char>)
    ensures
        spec_parse(s) matches Ok(g) ==> g.wf(),
{
    reveal_with_fuel(crate::codec::pow10, 7);
    if spec_parse(s) is Ok {
        let n = s.len() as int;
        if s.len() == 2 {
            crate::codec::lemma_nat_of_digits_bound(s.subrange(0, 2));
        } else if s.len() == 5 || s.len() == 10 || s.len() == 11 || s.len() == 12 {
            crate::codec::lemma_nat_of_digits_bound(s.subrange(0, 2));
            crate::codec::lemma_nat_of_digits_bound(s.subrange(2, 5));
            if s.len() == 10 {
                crate::codec::lemma_nat_of_digits_bound(s.subrange(5, 10));
            }
            if s.len() == 11 || s.len() == 12 {
                crate::codec::lemma_nat_of_digits_bound(s.subrange(5, 11));
            }
            if s.len() == 12 {
                crate::codec::lemma_nat_of_digits_bound(s.subrange(11, 12));
            }
        } else if s.len() == 7 {
            crate::codec::lemma_nat_of_digits_bound(s.subrange(0, 2));
            crate::codec::lemma_nat_of_digits_bound(s.subrange(2, 7));
        } else {
            crate::codec::lemma_nat_of_digits_bound(s.subrange(0, 2));
            crate::codec::lemma_nat_of_digits_bound(s.subrange(2, 5));
            crate::codec::lemma_nat_of_digits_bound(s.subrange(5, 11));
        }
    }
}

/// Whether every character of the string is a decimal digit.
pub fn is_digit_string(s: &str) -> (r: bool)
    ensures
        r == all_digits(s@),
{
    let n = s.unicode_len();
    let mut i: usize = 0;
    while i < n
        invariant
            0 <= i <= n,
            n == s@.len(),
            forall|j: int| 0 <= j < i ==> crate::codec::is_digit(#[trigger] s@[j]),
        decreases n - i,
    {
        let c = s.get_char(i);
        match crate::codec::char_digit_val(c) {
            None => {
                return false;
            },
            Some(_) => {},
        }
        i += 1;
    }
    true
}

} // verus!
