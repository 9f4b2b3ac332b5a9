//! Program-derived signing authorities.
//!
//! A program may let the host runtime sign an invocation on its behalf: the
//! runtime derives an address from a set of byte seeds together with the
//! deriving program's id, and treats the seed set as a signature for exactly
//! that address. The helpers here decide whether a seed set yields a given
//! authority account, which is the condition every delegated operation of
//! this library checks before it assembles an instruction.

use vstd::prelude::*;
use crate::address::{addr_eq, Address};
use solana_program::pubkey::Pubkey;

verus! {

/// The address that the host runtime derives from a seed set and a deriving
/// program, or `None` where the seed set derives no address at all (too many
/// seeds, an over-long seed, or a derivation that lands on the curve).
pub uninterp spec fn program_address_of(seeds: Seq<Seq<u8>>, program: Seq<u8>) -> Option<Seq<u8>>;

/// Relies on `Pubkey::create_program_address`: the outcome depends on the
/// seed bytes and the deriving program's id alone, and a derived address is
/// 32 bytes long.
#[verifier::external_body]
fn derive_program_address(seeds: &Vec<Vec<u8>>, program: &Address) -> (r: Option<Address>)
    ensures
        match r {
            Some(a) => program_address_of(seeds.deep_view(), program@) == Some(a@),
            None => program_address_of(seeds.deep_view(), program@) is None,
        },
{
    let parts: Vec<&[u8]> = seeds.iter().map(|s| s.as_slice()).collect();
    match Pubkey::create_program_address(&parts, &Pubkey::new_from_array(program.bytes)) {
        Ok(pk) => Some(Address { bytes: pk.to_bytes() }),
        Err(_) => None,
    }
}

/// Whether `signer_seeds`, derived through `signing_program`, yield exactly
/// the `authority` account. This is the condition under which the host
/// runtime accepts the seed set in place of that account's signature.
pub fn seeds_derive_authority(
    signer_seeds: &Vec<Vec<u8>>,
    signing_program: &Address,
    authority: &Address,
) -> (r: bool)
    ensures
        r == (program_address_of(signer_seeds.deep_view(), signing_program@) == Some(
            authority@,
        )),
{
    match derive_program_address(signer_seeds, signing_program) {
        Some(derived) => addr_eq(&derived, authority),
        None => false,
    }
}

} // verus!
