//! Helpers for delegated token operations: each public operation checks that a
//! seed set derives the signing authority, then assembles the instruction that
//! the token program or the metadata program expects, ready to be submitted
//! through the host's signed-invocation primitive.

use vstd::prelude::*;

pub mod address;
pub mod derivation;
pub mod instruction;
pub mod ledger;
pub mod metadata_program;
pub mod simplespl;
pub mod token_program;

verus! {

/// Why a delegated operation was not carried out.
#[derive(Clone, Copy, PartialEq, Eq, Structural, Debug)]
pub enum HelperError {
    /// The invoked program rejected the instruction.
    ExternalProgramError,
    /// The supplied seed set does not derive the authority account given.
    SigningError,
}

} // verus!
