//! The geographic identifier itself: a closed variant type, one variant
//! per hierarchy level, holding the ordered component codes from the root
//! down to that level.
//!
//! Contracts are stated over [`GeoidModel`], the mathematical value of an
//! identifier: unbounded integers for the numeric components and a
//! character sequence for a block's raw digit string.

use vstd::prelude::*;

use crate::codec::{all_digits, digit_val, is_digit, min_padded};
use crate::error::CensusError;
use crate::fips;
use crate::geoid_type::GeoidType;

verus! {

/// The mathematical value of a [`Geoid`].
pub ghost enum GeoidModel {
    State(nat),
    County(nat, nat),
    CountySubdivision(nat, nat, nat),
    Place(nat, nat),
    CensusTract(nat, nat, nat),
    BlockGroup(nat, nat, nat, nat),
    Block(nat, nat, nat, Seq<char>),
}

impl GeoidModel {
    /// The hierarchy level this value sits at.
    pub open spec fn level(self) -> GeoidType {
        match self {
            GeoidModel::State(..) => GeoidType::State,
            GeoidModel::County(..) => GeoidType::County,
            GeoidModel::CountySubdivision(..) => GeoidType::CountySubdivision,
            GeoidModel::Place(..) => GeoidType::Place,
            GeoidModel::CensusTract(..) => GeoidType::CensusTract,
            GeoidModel::BlockGroup(..) => GeoidType::BlockGroup,
            GeoidModel::Block(..) => GeoidType::Block,
        }
    }

    /// Syntactic validity: every component fits its fixed encoded width,
    /// and a block's raw digit string has one of its two accepted widths.
    pub open spec fn wf(self) -> bool {
        match self {
            GeoidModel::State(s) => s < 100,
            GeoidModel::County(s, c) => s < 100 && c < 1000,
            GeoidModel::CountySubdivision(s, c, cs) => s < 100 && c < 1000 && cs < 100000,
            GeoidModel::Place(s, p) => s < 100 && p < 100000,
            GeoidModel::CensusTract(s, c, t) => s < 100 && c < 1000 && t < 1000000,
            GeoidModel::BlockGroup(s, c, t, bg) => s < 100 && c < 1000 && t < 1000000 && bg < 10,
            GeoidModel::Block(s, c, t, b) => s < 100 && c < 1000 && t < 1000000 && 4 <= b.len()
                <= 5 && all_digits(b),
        }
    }

    /// The canonical encoded string: each component zero-padded to its
    /// width, concatenated root first.
    pub open spec fn render(self) -> Seq<char> {
        match self {
            GeoidModel::State(s) => min_padded(s, 2),
            GeoidModel::County(s, c) => min_padded(s, 2) + min_padded(c, 3),
            GeoidModel::CountySubdivision(s, c, cs) => min_padded(s, 2) + min_padded(c, 3)
                + min_padded(cs, 5),
            GeoidModel::Place(s, p) => min_padded(s, 2) + min_padded(p, 5),
            GeoidModel::CensusTract(s, c, t) => min_padded(s, 2) + min_padded(c, 3) + min_padded(
                t,
                6,
            ),
            GeoidModel::BlockGroup(s, c, t, bg) => min_padded(s, 2) + min_padded(c, 3)
                + min_padded(t, 6) + min_padded(bg, 1),
            GeoidModel::Block(s, c, t, b) => min_padded(s, 2) + min_padded(c, 3) + min_padded(t, 6)
                + b,
        }
    }

    /// The state component, present at every level.
    pub open spec fn state_component(self) -> nat {
        match self {
            GeoidModel::State(s) => s,
            GeoidModel::County(s, ..) => s,
            GeoidModel::CountySubdivision(s, ..) => s,
            GeoidModel::Place(s, ..) => s,
            GeoidModel::CensusTract(s, ..) => s,
            GeoidModel::BlockGroup(s, ..) => s,
            GeoidModel::Block(s, ..) => s,
        }
    }

    /// The unique immediate ancestor in the hierarchy forest; a state has
    /// none. A block's parent is its census tract, not a block group.
    pub open spec fn parent(self) -> Option<GeoidModel> {
        match self {
            GeoidModel::State(..) => None,
            GeoidModel::County(s, _) => Some(GeoidModel::State(s)),
            GeoidModel::CountySubdivision(s, c, _) => Some(GeoidModel::County(s, c)),
            GeoidModel::Place(s, _) => Some(GeoidModel::State(s)),
            GeoidModel::CensusTract(s, c, _) => Some(GeoidModel::County(s, c)),
            GeoidModel::BlockGroup(s, c, t, _) => Some(GeoidModel::CensusTract(s, c, t)),
            GeoidModel::Block(s, c, t, _) => Some(GeoidModel::CensusTract(s, c, t)),
        }
    }

    /// The number of parent steps from this level up to the state level.
    pub open spec fn depth(self) -> nat {
        match self {
            GeoidModel::State(..) => 0,
            GeoidModel::County(..) => 1,
            GeoidModel::Place(..) => 1,
            GeoidModel::CountySubdivision(..) => 2,
            GeoidModel::CensusTract(..) => 2,
            GeoidModel::BlockGroup(..) => 3,
            GeoidModel::Block(..) => 3,
        }
    }

    /// Truncation to a coarser level: the identity at the value's own
    /// level, the prefix tuple at a strict forest ancestor, and otherwise
    /// an error. The one exception: a block may be truncated to a block
    /// group by taking the first digit of its raw digit string — a
    /// documented heuristic, not an officially guaranteed identity.
    pub open spec fn truncate(self, target: GeoidType) -> Result<GeoidModel, CensusError> {
        match (self, target) {
            (GeoidModel::State(..), GeoidType::State) => Ok(self),
            (GeoidModel::County(s, _), GeoidType::State) => Ok(GeoidModel::State(s)),
            (GeoidModel::County(..), GeoidType::County) => Ok(self),
            (GeoidModel::CountySubdivision(s, _, _), GeoidType::State) => Ok(GeoidModel::State(s)),
            (GeoidModel::CountySubdivision(s, c, _), GeoidType::County) => Ok(
                GeoidModel::County(s, c),
            ),
            (GeoidModel::CountySubdivision(..), GeoidType::CountySubdivision) => Ok(self),
            (GeoidModel::Place(s, _), GeoidType::State) => Ok(GeoidModel::State(s)),
            (GeoidModel::Place(..), GeoidType::Place) => Ok(self),
            (GeoidModel::CensusTract(s, _, _), GeoidType::State) => Ok(GeoidModel::State(s)),
            (GeoidModel::CensusTract(s, c, _), GeoidType::County) => Ok(GeoidModel::County(s, c)),
            (GeoidModel::CensusTract(..), GeoidType::CensusTract) => Ok(self),
            (GeoidModel::BlockGroup(s, _, _, _), GeoidType::State) => Ok(GeoidModel::State(s)),
            (GeoidModel::BlockGroup(s, c, _, _), GeoidType::County) => Ok(
                GeoidModel::County(s, c),
            ),
            (GeoidModel::BlockGroup(s, c, t, _), GeoidType::CensusTract) => Ok(
                GeoidModel::CensusTract(s, c, t),
            ),
            (GeoidModel::BlockGroup(..), GeoidType::BlockGroup) => Ok(self),
            (GeoidModel::Block(s, _, _, _), GeoidType::State) => Ok(GeoidModel::State(s)),
            (GeoidModel::Block(s, c, _, _), GeoidType::County) => Ok(GeoidModel::County(s, c)),
            (GeoidModel::Block(s, c, t, _), GeoidType::CensusTract) => Ok(
                GeoidModel::CensusTract(s, c, t),
            ),
            (GeoidModel::Block(s, c, t, b), GeoidType::BlockGroup) => {
                if b.len() >= 1 && is_digit(b[0]) {
                    Ok(GeoidModel::BlockGroup(s, c, t, digit_val(b[0])))
                } else {
                    Err(CensusError::MalformedComponent)
                }
            },
            (GeoidModel::Block(..), GeoidType::Block) => Ok(self),
            _ => Err(CensusError::NotAnAncestor(self.level(), target)),
        }
    }

    /// Projection to the county level, defined wherever a county prefix
    /// exists (everywhere but the state and place levels).
    pub open spec fn to_county(self) -> Result<GeoidModel, CensusError> {
        match self {
            GeoidModel::State(..) => Err(
                CensusError::NotAnAncestor(GeoidType::State, GeoidType::County),
            ),
            GeoidModel::Place(..) => Err(
                CensusError::NotAnAncestor(GeoidType::Place, GeoidType::County),
            ),
            GeoidModel::County(s, c) => Ok(GeoidModel::County(s, c)),
            GeoidModel::CountySubdivision(s, c, _) => Ok(GeoidModel::County(s, c)),
            GeoidModel::CensusTract(s, c, _) => Ok(GeoidModel::County(s, c)),
            GeoidModel::BlockGroup(s, c, _, _) => Ok(GeoidModel::County(s, c)),
            GeoidModel::Block(s, c, _, _) => Ok(GeoidModel::County(s, c)),
        }
    }

    /// Projection to the census-tract level, defined wherever a tract
    /// prefix exists (the tract, block-group and block levels).
    pub open spec fn to_census_tract(self) -> Result<GeoidModel, CensusError> {
        match self {
            GeoidModel::State(..) => Err(
                CensusError::NotAnAncestor(GeoidType::State, GeoidType::CensusTract),
            ),
            GeoidModel::County(..) => Err(
                CensusError::NotAnAncestor(GeoidType::County, GeoidType::CensusTract),
            ),
            GeoidModel::CountySubdivision(..) => Err(
                CensusError::NotAnAncestor(GeoidType::CountySubdivision, GeoidType::CensusTract),
            ),
            GeoidModel::Place(..) => Err(
                CensusError::NotAnAncestor(GeoidType::Place, GeoidType::CensusTract),
            ),
            GeoidModel::CensusTract(s, c, t) => Ok(GeoidModel::CensusTract(s, c, t)),
            GeoidModel::BlockGroup(s, c, t, _) => Ok(GeoidModel::CensusTract(s, c, t)),
            GeoidModel::Block(s, c, t, _) => Ok(GeoidModel::CensusTract(s, c, t)),
        }
    }
}

/// A geographic identifier at one of the seven hierarchy levels, holding
/// the ordered component codes from the root down to that level.
/// Immutable once constructed: every navigation operation returns a new
/// value.
#[derive(Debug, Hash)]
pub enum Geoid {
    State(fips::State),
    County(fips::State, fips::County),
    CountySubdivision(fips::State, fips::County, fips::CountySubdivision),
    Place(fips::State, fips::Place),
    CensusTract(fips::State, fips::County, fips::CensusTract),
    BlockGroup(fips::State, fips::County, fips::CensusTract, fips::BlockGroup),
    Block(fips::State, fips::County, fips::CensusTract, fips::Block),
}

impl View for Geoid {
    type V = GeoidModel;

    open spec fn view(&self) -> GeoidModel {
        match *self {
            Geoid::State(s) => GeoidModel::State(s.0 as nat),
            Geoid::County(s, c) => GeoidModel::County(s.0 as nat, c.0 as nat),
            Geoid::CountySubdivision(s, c, cs) => GeoidModel::CountySubdivision(
                s.0 as nat,
                c.0 as nat,
                cs.0 as nat,
            ),
            Geoid::Place(s, p) => GeoidModel::Place(s.0 as nat, p.0 as nat),
            Geoid::CensusTract(s, c, t) => GeoidModel::CensusTract(
                s.0 as nat,
                c.0 as nat,
                t.0 as nat,
            ),
            Geoid::BlockGroup(s, c, t, bg) => GeoidModel::BlockGroup(
                s.0 as nat,
                c.0 as nat,
                t.0 as nat,
                bg.0 as nat,
            ),
            Geoid::Block(s, c, t, ref b) => GeoidModel::Block(
                s.0 as nat,
                c.0 as nat,
                t.0 as nat,
                b.0@,
            ),
        }
    }
}

/// The model of a fallible identifier result, for stating contracts.
pub open spec fn result_model(r: Result<Geoid, CensusError>) -> Result<GeoidModel, CensusError> {
    match r {
        Ok(g) => Ok(g@),
        Err(e) => Err(e),
    }
}

/// The model of an optional identifier, for stating contracts.
pub open spec fn option_model(r: Option<Geoid>) -> Option<GeoidModel> {
    match r {
        Some(g) => Some(g@),
        None => None,
    }
}

impl Clone for Geoid {
    /// Cloning keeps the identifier's value exactly.
    fn clone(&self) -> (r: Self)
        ensures
            r == *self,
    {
        match self {
            Geoid::State(s) => Geoid::State(*s),
            Geoid::County(s, c) => Geoid::County(*s, *c),
            Geoid::CountySubdivision(s, c, cs) => Geoid::CountySubdivision(*s, *c, *cs),
            Geoid::Place(s, p) => Geoid::Place(*s, *p),
            Geoid::CensusTract(s, c, t) => Geoid::CensusTract(*s, *c, *t),
            Geoid::BlockGroup(s, c, t, bg) => Geoid::BlockGroup(*s, *c, *t, *bg),
            Geoid::Block(s, c, t, b) => Geoid::Block(*s, *c, *t, b.clone()),
        }
    }
}

impl PartialEq for Geoid {
    /// Structural, variant-tagged equality: two identifiers are equal
    /// exactly when they have the same variant and the same component
    /// tuple. Cross-variant comparisons are never equal, even for
    /// structurally similar prefixes.
    fn eq(&self, other: &Self) -> (r: bool) {
        match (self, other) {
            (Geoid::State(l0), Geoid::State(r0)) => l0.0 == r0.0,
            (Geoid::County(l0, l1), Geoid::County(r0, r1)) => l0.0 == r0.0 && l1.0 == r1.0,
            (
                Geoid::CountySubdivision(l0, l1, l2),
                Geoid::CountySubdivision(r0, r1, r2),
            ) => l0.0 == r0.0 && l1.0 == r1.0 && l2.0 == r2.0,
            (Geoid::Place(l0, l1), Geoid::Place(r0, r1)) => l0.0 == r0.0 && l1.0 == r1.0,
            (Geoid::CensusTract(l0, l1, l2), Geoid::CensusTract(r0, r1, r2)) => l0.0 == r0.0
                && l1.0 == r1.0 && l2.0 == r2.0,
            (Geoid::BlockGroup(l0, l1, l2, l3), Geoid::BlockGroup(r0, r1, r2, r3)) => l0.0 == r0.0
                && l1.0 == r1.0 && l2.0 == r2.0 && l3.0 == r3.0,
            (Geoid::Block(l0, l1, l2, l3), Geoid::Block(r0, r1, r2, r3)) => l0.0 == r0.0 && l1.0
                == r1.0 && l2.0 == r2.0 && l3.0 == r3.0,
            _ => false,
        }
    }
}

impl vstd::std_specs::cmp::PartialEqSpecImpl for Geoid {
    open spec fn obeys_eq_spec() -> bool {
        true
    }

    open spec fn eq_spec(&self, other: &Self) -> bool {
        self@ == other@
    }
}

impl Geoid {
    /// The hierarchy level of this identifier.
    pub fn geoid_type(&self) -> (r: GeoidType)
        ensures
            r == self@.level(),
    {
        match self {
            Geoid::State(..) => GeoidType::State,
            Geoid::County(..) => GeoidType::County,
            Geoid::CountySubdivision(..) => GeoidType::CountySubdivision,
            Geoid::Place(..) => GeoidType::Place,
            Geoid::CensusTract(..) => GeoidType::CensusTract,
            Geoid::BlockGroup(..) => GeoidType::BlockGroup,
            Geoid::Block(..) => GeoidType::Block,
        }
    }

    /// The lower-case English name of this identifier's level.
    pub fn variant_name(&self) -> (r: String)
        ensures
            r@ == self@.level().spec_name(),
    {
        self.geoid_type().name()
    }

    /// The level's name and the encoded string together, for display.
    pub fn to_display_string(&self) -> (r: String)
        ensures
            r@ == self@.level().spec_name() + "="@ + self@.render(),
    {
        let mut s = self.variant_name();
        s.append("=");
        let g = self.geoid_string();
        s.append(g.as_str());
        s
    }

    /// The canonical encoded string of this identifier: each component
    /// zero-padded to its width, concatenated root first.
    pub fn geoid_string(&self) -> (r: String)
        ensures
            r@ == self@.render(),
    {
        match self {
            Geoid::State(st) => st.geoid_string(),
            Geoid::County(st, ct) => {
                let mut s = st.geoid_string();
                let c = ct.geoid_string();
                s.append(c.as_str());
                s
            },
            Geoid::CountySubdivision(st, ct, cs) => {
                let mut s = st.geoid_string();
                let c = ct.geoid_string();
                s.append(c.as_str());
                let d = cs.geoid_string();
                s.append(d.as_str());
                s
            },
            Geoid::Place(st, pl) => {
                let mut s = st.geoid_string();
                let p = pl.geoid_string();
                s.append(p.as_str());
                s
            },
            Geoid::CensusTract(st, ct, tr) => {
                let mut s = st.geoid_string();
                let c = ct.geoid_string();
                s.append(c.as_str());
                let t = tr.geoid_string();
                s.append(t.as_str());
                s
            },
            Geoid::BlockGroup(st, ct, tr, bg) => {
                let mut s = st.geoid_string();
                let c = ct.geoid_string();
                s.append(c.as_str());
                let t = tr.geoid_string();
                s.append(t.as_str());
                let b = bg.geoid_string();
                s.append(b.as_str());
                s
            },
            Geoid::Block(st, ct, tr, bl) => {
                let mut s = st.geoid_string();
                let c = ct.geoid_string();
                s.append(c.as_str());
                let t = tr.geoid_string();
                s.append(t.as_str());
                let b = bl.geoid_string();
                s.append(b.as_str());
                s
            },
        }
    }

    /// Parse an encoded identifier string. The hierarchy level is chosen
    /// by the input length alone; the fixed-width segments are then each
    /// decoded as digit strings. Fails with `UnsupportedLength` when the
    /// length matches no level, and with `MalformedComponent` when a
    /// segment is not a digit string.
    pub fn from_string(value: &str) -> (r: Result<Geoid, CensusError>)
        ensures
            result_model(r) == crate::geoid_type::spec_parse(value@),
    {
        let n = value.unicode_len();
        let owned = String::from_str(value);
        match n {
            2 => GeoidType::State.geoid_from_string(&owned),
            5 => GeoidType::County.geoid_from_string(&owned),
            7 => GeoidType::Place.geoid_from_string(&owned),
            10 => GeoidType::CountySubdivision.geoid_from_string(&owned),
            11 => GeoidType::CensusTract.geoid_from_string(&owned),
            12 => GeoidType::BlockGroup.geoid_from_string(&owned),
            15 | 16 => GeoidType::Block.geoid_from_string(&owned),
            _ => Err(CensusError::UnsupportedLength(n)),
        }
    }

    /// The unique immediate ancestor in the hierarchy forest. A state has
    /// none (no geographic restriction); a block's parent is its census
    /// tract, not a block group.
    pub fn to_parent(&self) -> (r: Option<Geoid>)
        ensures
            option_model(r) == self@.parent(),
    {
        match self {
            Geoid::State(_) => None,
            Geoid::County(s, _) => Some(Geoid::State(*s)),
            Geoid::CountySubdivision(s, c, _) => Some(Geoid::County(*s, *c)),
            Geoid::Place(s, _) => Some(Geoid::State(*s)),
            Geoid::CensusTract(s, c, _) => Some(Geoid::County(*s, *c)),
            Geoid::BlockGroup(s, c, t, _) => Some(Geoid::CensusTract(*s, *c, *t)),
            Geoid::Block(s, c, t, _) => Some(Geoid::CensusTract(*s, *c, *t)),
        }
    }

    /// The state-level prefix of this identifier, defined at every level.
    pub fn to_state(&self) -> (r: Geoid)
        ensures
            r@ == GeoidModel::State(self@.state_component()),
    {
        match self {
            Geoid::State(st) => Geoid::State(*st),
            Geoid::County(st, _) => Geoid::State(*st),
            Geoid::CountySubdivision(st, _, _) => Geoid::State(*st),
            Geoid::Place(st, _) => Geoid::State(*st),
            Geoid::CensusTract(st, _, _) => Geoid::State(*st),
            Geoid::BlockGroup(st, _, _, _) => Geoid::State(*st),
            Geoid::Block(st, _, _, _) => Geoid::State(*st),
        }
    }

    /// The state component's numeric code, present at every level.
    pub fn state_fips(&self) -> (r: u64)
        ensures
            r as nat == self@.state_component(),
    {
        match self {
            Geoid::State(st) => st.0,
            Geoid::County(st, _) => st.0,
            Geoid::CountySubdivision(st, _, _) => st.0,
            Geoid::Place(st, _) => st.0,
            Geoid::CensusTract(st, _, _) => st.0,
            Geoid::BlockGroup(st, _, _, _) => st.0,
            Geoid::Block(st, _, _, _) => st.0,
        }
    }

    /// The county-level prefix of this identifier; fails at the state and
    /// place levels, which carry no county.
    pub fn to_county(&self) -> (r: Result<Geoid, CensusError>)
        ensures
            result_model(r) == self@.to_county(),
    {
        match self {
            Geoid::State(_) => Err(CensusError::NotAnAncestor(GeoidType::State, GeoidType::County)),
            Geoid::County(st, ct) => Ok(Geoid::County(*st, *ct)),
            Geoid::CountySubdivision(st, ct, _) => Ok(Geoid::County(*st, *ct)),
            Geoid::Place(_, _) => Err(
                CensusError::NotAnAncestor(GeoidType::Place, GeoidType::County),
            ),
            Geoid::CensusTract(st, ct, _) => Ok(Geoid::County(*st, *ct)),
            Geoid::BlockGroup(st, ct, _, _) => Ok(Geoid::County(*st, *ct)),
            Geoid::Block(st, ct, _, _) => Ok(Geoid::County(*st, *ct)),
        }
    }

    /// The census-tract-level prefix of this identifier; defined only at
    /// the tract, block-group and block levels.
    pub fn to_census_tract(&self) -> (r: Result<Geoid, CensusError>)
        ensures
            result_model(r) == self@.to_census_tract(),
    {
        match self {
            Geoid::State(_) => Err(
                CensusError::NotAnAncestor(GeoidType::State, GeoidType::CensusTract),
            ),
            Geoid::County(_, _) => Err(
                CensusError::NotAnAncestor(GeoidType::County, GeoidType::CensusTract),
            ),
            Geoid::CountySubdivision(_, _, _) => Err(
                CensusError::NotAnAncestor(GeoidType::CountySubdivision, GeoidType::CensusTract),
            ),
            Geoid::Place(_, _) => Err(
                CensusError::NotAnAncestor(GeoidType::Place, GeoidType::CensusTract),
            ),
            Geoid::CensusTract(st, ct, tr) => Ok(Geoid::CensusTract(*st, *ct, *tr)),
            Geoid::BlockGroup(st, ct, tr, _) => Ok(Geoid::CensusTract(*st, *ct, *tr)),
            Geoid::Block(st, ct, tr, _) => Ok(Geoid::CensusTract(*st, *ct, *tr)),
        }
    }

    /// Truncate this identifier to a coarser level. Succeeds exactly when
    /// the target is this identifier's own level or a forest ancestor of
    /// it — plus the documented block-to-block-group exception, which
    /// takes the block group to be the first digit of the block's raw
    /// digit string (agency guidance does not guarantee this identity).
    pub fn truncate_geoid_to_type(&self, target: &GeoidType) -> (r: Result<Geoid, CensusError>)
        ensures
            result_model(r) == self@.truncate(*target),
            *target == self@.level() ==> (r matches Ok(g) && g == *self),
    {
        match (self, target) {
            (Geoid::State(_), GeoidType::State) => Ok(self.clone()),
            (Geoid::County(s, _), GeoidType::State) => Ok(Geoid::State(*s)),
            (Geoid::County(_, _), GeoidType::County) => Ok(self.clone()),
            (Geoid::CountySubdivision(s, _, _), GeoidType::State) => Ok(Geoid::State(*s)),
            (Geoid::CountySubdivision(s, c, _), GeoidType::County) => Ok(Geoid::County(*s, *c)),
            (Geoid::CountySubdivision(_, _, _), GeoidType::CountySubdivision) => Ok(self.clone()),
            (Geoid::Place(s, _), GeoidType::State) => Ok(Geoid::State(*s)),
            (Geoid::Place(_, _), GeoidType::Place) => Ok(self.clone()),
            (Geoid::CensusTract(s, _, _), GeoidType::State) => Ok(Geoid::State(*s)),
            (Geoid::CensusTract(s, c, _), GeoidType::County) => Ok(Geoid::County(*s, *c)),
            (Geoid::CensusTract(_, _, _), GeoidType::CensusTract) => Ok(self.clone()),
            (Geoid::BlockGroup(s, _, _, _), GeoidType::State) => Ok(Geoid::State(*s)),
            (Geoid::BlockGroup(s, c, _, _), GeoidType::County) => Ok(Geoid::County(*s, *c)),
            (Geoid::BlockGroup(s, c, t, _), GeoidType::CensusTract) => Ok(
                Geoid::CensusTract(*s, *c, *t),
            ),
            (Geoid::BlockGroup(_, _, _, _), GeoidType::BlockGroup) => Ok(self.clone()),
            (Geoid::Block(s, _, _, _), GeoidType::State) => Ok(Geoid::State(*s)),
            (Geoid::Block(s, c, _, _), GeoidType::County) => Ok(Geoid::County(*s, *c)),
            (Geoid::Block(s, c, t, _), GeoidType::CensusTract) => Ok(
                Geoid::CensusTract(*s, *c, *t),
            ),
            (Geoid::Block(s, c, t, b), GeoidType::BlockGroup) => {
                // the block-group derivation rule: the first digit of the
                // block's raw digit string names its block group
                if b.0.as_str().unicode_len() == 0 {
                    Err(CensusError::MalformedComponent)
                } else {
                    let first = b.0.as_str().get_char(0);
                    match crate::codec::char_digit_val(first) {
                        Some(d) => Ok(Geoid::BlockGroup(*s, *c, *t, fips::BlockGroup(d))),
                        None => Err(CensusError::MalformedComponent),
                    }
                }
            },
            (Geoid::Block(_, _, _, _), GeoidType::Block) => Ok(self.clone()),
            _ => Err(CensusError::NotAnAncestor(self.geoid_type(), *target)),
        }
    }
}

/// Facts about one zero-padded segment of a canonical rendering: it has
/// its full width, is all digits, parses back to the component value, and
/// needed no overflow padding.
proof fn lemma_padded_segment_facts(v: nat, w: nat)
    requires
        1 <= w <= 6,
        v < crate::codec::pow10(w),
    ensures
        min_padded(v, w) == crate::codec::padded_digits(v, w),
        min_padded(v, w).len() == w,
        all_digits(min_padded(v, w)),
        crate::codec::parseable_u64(min_padded(v, w)),
        crate::codec::nat_of_digits(min_padded(v, w)) == v,
{
    crate::codec::lemma_padded_digits_wf(v, w);
    crate::codec::lemma_padded_digits_roundtrip(v, w);
    assert(crate::codec::pow10(6) == 1000000) by {
        reveal_with_fuel(crate::codec::pow10, 7);
    }
    crate::codec::lemma_pow10_mono(w, 6);
}

/// Law: rendering an identifier and parsing the result returns the
/// identifier unchanged, for every syntactically valid identifier.
pub proof fn lemma_round_trip(m: GeoidModel)
    requires
        m.wf(),
    ensures
        crate::geoid_type::spec_parse(m.render()) == Ok::<GeoidModel, CensusError>(m),
{
    assert(crate::codec::pow10(1) == 10 && crate::codec::pow10(2) == 100 && crate::codec::pow10(3)
        == 1000 && crate::codec::pow10(5) == 100000 && crate::codec::pow10(6) == 1000000) by {
        reveal_with_fuel(crate::codec::pow10, 7);
    }
    let r = m.render();
    match m {
        GeoidModel::State(s) => {
            lemma_padded_segment_facts(s, 2);
            assert(r.subrange(0, 2) =~= min_padded(s, 2));
        },
        GeoidModel::County(s, c) => {
            lemma_padded_segment_facts(s, 2);
            lemma_padded_segment_facts(c, 3);
            assert(r.subrange(0, 2) =~= min_padded(s, 2));
            assert(r.subrange(2, 5) =~= min_padded(c, 3));
        },
        GeoidModel::CountySubdivision(s, c, cs) => {
            lemma_padded_segment_facts(s, 2);
            lemma_padded_segment_facts(c, 3);
            lemma_padded_segment_facts(cs, 5);
            assert(r.subrange(0, 2) =~= min_padded(s, 2));
            assert(r.subrange(2, 5) =~= min_padded(c, 3));
            assert(r.subrange(5, 10) =~= min_padded(cs, 5));
        },
        GeoidModel::Place(s, p) => {
            lemma_padded_segment_facts(s, 2);
            lemma_padded_segment_facts(p, 5);
            assert(r.subrange(0, 2) =~= min_padded(s, 2));
            assert(r.subrange(2, 7) =~= min_padded(p, 5));
        },
        GeoidModel::CensusTract(s, c, t) => {
            lemma_padded_segment_facts(s, 2);
            lemma_padded_segment_facts(c, 3);
            lemma_padded_segment_facts(t, 6);
            assert(r.subrange(0, 2) =~= min_padded(s, 2));
            assert(r.subrange(2, 5) =~= min_padded(c, 3));
            assert(r.subrange(5, 11) =~= min_padded(t, 6));
        },
        GeoidModel::BlockGroup(s, c, t, bg) => {
            lemma_padded_segment_facts(s, 2);
            lemma_padded_segment_facts(c, 3);
            lemma_padded_segment_facts(t, 6);
            lemma_padded_segment_facts(bg, 1);
            assert(r.subrange(0, 2) =~= min_padded(s, 2));
            assert(r.subrange(2, 5) =~= min_padded(c, 3));
            assert(r.subrange(5, 11) =~= min_padded(t, 6));
            assert(r.subrange(11, 12) =~= min_padded(bg, 1));
        },
        GeoidModel::Block(s, c, t, b) => {
            lemma_padded_segment_facts(s, 2);
            lemma_padded_segment_facts(c, 3);
            lemma_padded_segment_facts(t, 6);
            assert(r.subrange(0, 2) =~= min_padded(s, 2));
            assert(r.subrange(2, 5) =~= min_padded(c, 3));
            assert(r.subrange(5, 11) =~= min_padded(t, 6));
            assert(r.subrange(11, r.len() as int) =~= b);
        },
    }
}

/// Law: truncating an identifier to its own level is the identity.
pub proof fn lemma_truncate_identity(m: GeoidModel)
    ensures
        m.truncate(m.level()) == Ok::<GeoidModel, CensusError>(m),
{
}

/// Law: truncation succeeds exactly at the identifier's own level and at
/// the strict forest ancestors of that level. (The one case this does not
/// speak of is the documented block-to-block-group heuristic, whose
/// success depends on the block's digit string, not on the hierarchy.)
pub proof fn lemma_truncate_ancestor_only(m: GeoidModel, target: GeoidType)
    requires
        !(m.level() is Block && target is BlockGroup),
    ensures
        m.truncate(target) is Ok <==> (target == m.level() || crate::geoid_type::forest_ancestor(
            target,
            m.level(),
        )),
{
}

/// The `k`-fold application of [`GeoidModel::parent`], starting from the
/// identifier itself.
pub open spec fn parent_iter(m: GeoidModel, k: nat) -> Option<GeoidModel>
    decreases k,
{
    if k == 0 {
        Some(m)
    } else {
        match parent_iter(m, (k - 1) as nat) {
            Some(p) => p.parent(),
            None => None,
        }
    }
}

/// Law: the parent chain terminates. From any identifier, repeated parent
/// steps reach the state level in at most three steps, and the step after
/// that yields nothing.
pub proof fn lemma_parent_chain(m: GeoidModel)
    ensures
        m.depth() <= 3,
        parent_iter(m, m.depth()) matches Some(p) && p is State,
        parent_iter(m, m.depth() + 1) == None::<GeoidModel>,
{
    reveal_with_fuel(parent_iter, 5);
}

} // verus!
