//! The shape of a cross-program instruction, held as plain values.
//!
//! An instruction names the program that shall execute it, lists the accounts
//! it touches (each with its signer and writability flags), and carries an
//! opaque byte payload. The host runtime forwards exactly these three pieces,
//! so this model loses nothing that the invocation depends on.

use vstd::prelude::*;
use crate::address::Address;

verus! {

/// One entry of an instruction's account list.
#[derive(Clone, Copy, PartialEq, Eq, Debug)]
pub struct AccountSlot {
    /// The account's address.
    pub address: Address,
    /// Whether the account must sign the instruction.
    pub signer: bool,
    /// Whether the program may mutate the account.
    pub writable: bool,
}

/// A fully assembled instruction, ready to be handed to the host's
/// signed-invocation primitive.
#[derive(Clone, PartialEq, Eq, Debug)]
pub struct CpiInstruction {
    /// The program that shall execute the instruction.
    pub program: Address,
    /// The accounts the instruction touches, in the order the program expects.
    pub accounts: Vec<AccountSlot>,
    /// The instruction payload.
    pub data: Vec<u8>,
}

/// The eight bytes of `v` in little-endian order.
pub open spec fn u64_le_bytes(v: u64) -> Seq<u8> {
    seq![
        (v & 0xff) as u8,
        ((v >> 8) & 0xff) as u8,
        ((v >> 16) & 0xff) as u8,
        ((v >> 24) & 0xff) as u8,
        ((v >> 32) & 0xff) as u8,
        ((v >> 40) & 0xff) as u8,
        ((v >> 48) & 0xff) as u8,
        ((v >> 56) & 0xff) as u8,
    ]
}

/// The `u64` read back from eight little-endian bytes.
pub open spec fn u64_from_le(b: Seq<u8>) -> u64
    recommends
        b.len() == 8,
{
    (b[0] as u64) | ((b[1] as u64) << 8) | ((b[2] as u64) << 16) | ((b[3] as u64) << 24)
        | ((b[4] as u64) << 32) | ((b[5] as u64) << 40) | ((b[6] as u64) << 48)
        | ((b[7] as u64) << 56)
}

/// Reading the little-endian encoding back gives the value encoded.
pub proof fn lemma_u64_le_round_trip(v: u64)
    ensures
        u64_from_le(u64_le_bytes(v)) == v,
{
    assert((((v & 0xff) as u8) as u64) | (((((v >> 8) & 0xff) as u8) as u64) << 8)
        | (((((v >> 16) & 0xff) as u8) as u64) << 16) | (((((v >> 24) & 0xff) as u8) as u64) << 24)
        | (((((v >> 32) & 0xff) as u8) as u64) << 32) | (((((v >> 40) & 0xff) as u8) as u64) << 40)
        | (((((v >> 48) & 0xff) as u8) as u64) << 48) | (((((v >> 56) & 0xff) as u8) as u64) << 56)
        == v) by (bit_vector);
}

} // verus!
