//! The atomic numeric components of a geographic identifier, each with its
//! fixed encoded width. Every component is an opaque code except the block
//! number, which is kept as a raw digit string because its leading digit
//! carries meaning of its own (the block-group derivation rule).

use vstd::prelude::*;

use crate::codec::{all_digits, encode_padded, encode_u64, min_padded};

verus! {

/// A state code; encodes as two digits.
#[derive(Clone, Copy, Debug, PartialEq, Eq, Structural, Hash)]
pub struct State(pub u64);

/// A county code within a state; encodes as three digits.
#[derive(Clone, Copy, Debug, PartialEq, Eq, Structural, Hash)]
pub struct County(pub u64);

/// A county-subdivision code within a county; encodes as five digits.
#[derive(Clone, Copy, Debug, PartialEq, Eq, Structural, Hash)]
pub struct CountySubdivision(pub u64);

/// A place code within a state; encodes as five digits.
#[derive(Clone, Copy, Debug, PartialEq, Eq, Structural, Hash)]
pub struct Place(pub u64);

/// A census-tract code within a county; encodes as six digits.
#[derive(Clone, Copy, Debug, PartialEq, Eq, Structural, Hash)]
pub struct CensusTract(pub u64);

/// A block-group digit within a census tract; encodes as one digit.
#[derive(Clone, Copy, Debug, PartialEq, Eq, Structural, Hash)]
pub struct BlockGroup(pub u64);

/// A block number within a census tract, kept as its raw digit string so
/// that leading zeros survive the round trip.
#[derive(Debug, Hash)]
pub struct Block(pub String);

impl Clone for Block {
    fn clone(&self) -> (r: Self)
        ensures
            r == *self,
    {
        Block(self.0.clone())
    }
}

impl PartialEq for Block {
    fn eq(&self, other: &Self) -> (r: bool) {
        self.0 == other.0
    }
}

impl vstd::std_specs::cmp::PartialEqSpecImpl for Block {
    open spec fn obeys_eq_spec() -> bool {
        true
    }

    open spec fn eq_spec(&self, other: &Self) -> bool {
        self.0@ == other.0@
    }
}

impl State {
    /// Syntactic validity: the code fits its two-digit encoded width.
    pub open spec fn wf(self) -> bool {
        self.0 < 100
    }

    /// The canonical zero-padded encoding of this component.
    pub fn geoid_string(&self) -> (r: String)
        ensures
            r@ == min_padded(self.0 as nat, 2),
    {
        component_string(self.0, 2)
    }
}

impl County {
    /// Syntactic validity: the code fits its three-digit encoded width.
    pub open spec fn wf(self) -> bool {
        self.0 < 1000
    }

    /// The canonical zero-padded encoding of this component.
    pub fn geoid_string(&self) -> (r: String)
        ensures
            r@ == min_padded(self.0 as nat, 3),
    {
        component_string(self.0, 3)
    }
}

impl CountySubdivision {
    /// Syntactic validity: the code fits its five-digit encoded width.
    pub open spec fn wf(self) -> bool {
        self.0 < 100000
    }

    /// The canonical zero-padded encoding of this component.
    pub fn geoid_string(&self) -> (r: String)
        ensures
            r@ == min_padded(self.0 as nat, 5),
    {
        component_string(self.0, 5)
    }
}

impl Place {
    /// Syntactic validity: the code fits its five-digit encoded width.
    pub open spec fn wf(self) -> bool {
        self.0 < 100000
    }

    /// The canonical zero-padded encoding of this component.
    pub fn geoid_string(&self) -> (r: String)
        ensures
            r@ == min_padded(self.0 as nat, 5),
    {
        component_string(self.0, 5)
    }
}

impl CensusTract {
    /// Syntactic validity: the code fits its six-digit encoded width.
    pub open spec fn wf(self) -> bool {
        self.0 < 1000000
    }

    /// The canonical zero-padded encoding of this component.
    pub fn geoid_string(&self) -> (r: String)
        ensures
            r@ == min_padded(self.0 as nat, 6),
    {
        component_string(self.0, 6)
    }
}

impl BlockGroup {
    /// Syntactic validity: the code is a single digit.
    pub open spec fn wf(self) -> bool {
        self.0 < 10
    }

    /// The canonical zero-padded encoding of this component.
    pub fn geoid_string(&self) -> (r: String)
        ensures
            r@ == min_padded(self.0 as nat, 1),
    {
        component_string(self.0, 1)
    }
}

impl Block {
    /// Syntactic validity: a raw digit string of four or five digits, the
    /// two widths a block number can take in an encoded identifier.
    pub open spec fn wf(self) -> bool {
        4 <= self.0@.len() <= 5 && all_digits(self.0@)
    }

    /// The encoding of this component: the raw digit string itself.
    pub fn geoid_string(&self) -> (r: String)
        ensures
            r@ == self.0@,
    {
        self.0.clone()
    }
}

/// Zero-pad a component code to its width; a code too wide for its slot is
/// rendered unpadded rather than truncated.
fn component_string(v: u64, w: usize) -> (r: String)
    requires
        w <= 6,
    ensures
        r@ == min_padded(v as nat, w as nat),
{
    let bound: u64 = crate::codec::pow10_u64(w);
    if v < bound {
        encode_padded(v, w)
    } else {
        encode_u64(v)
    }
}

} // verus!
