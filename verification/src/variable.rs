//! A named statistical variable, as used to label attribute values in
//! query results.

use vstd::prelude::*;

verus! {

/// The name of one statistical variable.
#[derive(Debug, Hash)]
pub struct Variable(String);

impl Variable {
    /// The variable's name, as a character sequence.
    pub closed spec fn spec_name(self) -> Seq<char> {
        self.0@
    }

    /// Wrap a variable name.
    pub fn new(name: String) -> (r: Variable)
        ensures
            r.spec_name() == name@,
    {
        Variable(name)
    }

    /// The variable's name.
    pub fn name(&self) -> (r: &str)
        ensures
            r@ == self.spec_name(),
    {
        self.0.as_str()
    }
}

impl Clone for Variable {
    fn clone(&self) -> (r: Self)
        ensures
            r == *self,
    {
        Variable(self.0.clone())
    }
}

impl PartialEq for Variable {
    fn eq(&self, other: &Self) -> (r: bool) {
        self.0 == other.0
    }
}

impl vstd::std_specs::cmp::PartialEqSpecImpl for Variable {
    open spec fn obeys_eq_spec() -> bool {
        true
    }

    open spec fn eq_spec(&self, other: &Self) -> bool {
        self.spec_name() == other.spec_name()
    }
}

} // verus!
