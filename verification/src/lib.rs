//! Two range-check gadgets for an algebraic proof circuit.
//!
//! Each gadget constrains a private witness value to lie in the interval
//! `[0, RANGE)`.  The polynomial gadget does so through a single gate whose
//! polynomial vanishes exactly on that interval; the lookup gadget does so
//! through membership in a table that holds the canonical injections of
//! `0 .. RANGE`.  The constraint polynomials and the table rows are built
//! and reasoned about here over their canonical integer representatives;
//! registering them with the proof system's constraint builder and writing
//! witness cells go through a small trusted boundary in [`backend`].

use vstd::prelude::*;

pub mod backend;
pub mod expr;
pub mod range_check;
pub mod range_lookup;

verus! {

/// Error returned by the witness-time entry points: the underlying region
/// or table assignment failed, and the proof system's error is carried
/// unchanged.
pub enum GadgetError {
    /// A region or table assignment failed inside the layouter.
    Assignment(halo2_proofs::plonk::Error),
}

impl GadgetError {
    /// The underlying assignment error, unchanged, for callers that must
    /// hand it back to the proof system.
    pub fn into_inner(self) -> (r: halo2_proofs::plonk::Error)
        ensures
            self matches GadgetError::Assignment(e) && r == e,
    {
        match self {
            GadgetError::Assignment(e) => e,
        }
    }
}

} // verus!
