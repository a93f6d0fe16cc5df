//! The reduction policies applied when several source rows collapse onto
//! one output identifier.
//!
//! The policies reduce floating-point measurements, which the verifier
//! does not model, so the reduction itself lives with the unverified
//! callers; both policies are defined to yield zero on an empty input.

use vstd::prelude::*;

verus! {

/// A stateless reduction policy over a sequence of measurements.
#[derive(Clone, Copy, Debug, PartialEq, Eq, Structural, Hash)]
pub enum NumericAggregation {
    /// Fold with a zero seed.
    Sum,
    /// Running sum and count in one pass; zero on an empty input, by
    /// policy rather than as an error.
    Mean,
}

} // verus!
