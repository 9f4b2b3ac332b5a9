//! The fungible-token program's instruction builders, behind trusted wrappers.
//!
//! The token program accepts byte payloads of a fixed shape: a one-byte tag
//! naming the operation, followed by the operation's arguments. The two
//! builders wrapped here assemble the mint and the transfer instruction; what
//! each returns is stated exactly, so everything downstream of the call is
//! verified against the instruction's real layout.

use vstd::prelude::*;
use crate::address::Address;
use crate::instruction::{AccountSlot, CpiInstruction, u64_le_bytes};
use solana_program::pubkey::Pubkey;

verus! {

/// The token program's address, byte for byte.
pub open spec fn spl_token_id() -> Seq<u8> {
    seq![
        6u8, 221u8, 246u8, 225u8, 215u8, 101u8, 161u8, 147u8, 217u8, 203u8, 225u8, 70u8, 206u8,
        235u8, 121u8, 172u8, 28u8, 180u8, 133u8, 237u8, 95u8, 91u8, 55u8, 145u8, 58u8, 140u8,
        245u8, 133u8, 126u8, 255u8, 0u8, 169u8,
    ]
}

/// The token program's address as a value.
pub fn spl_token_program_address() -> (r: Address)
    ensures
        r@ == spl_token_id(),
{
    let bytes: [u8; 32] = [
        6, 221, 246, 225, 215, 101, 161, 147, 217, 203, 225, 70, 206, 235, 121, 172, 28, 180,
        133, 237, 95, 91, 55, 145, 58, 140, 245, 133, 126, 255, 0, 169,
    ];
    proof {
        assert(bytes@ =~= spl_token_id());
    }
    Address { bytes }
}

/// Payload of a mint instruction: the mint tag, then the amount.
pub open spec fn mint_to_data(amount: u64) -> Seq<u8> {
    seq![7u8] + u64_le_bytes(amount)
}

/// Payload of a transfer instruction: the transfer tag, then the amount.
pub open spec fn transfer_data(amount: u64) -> Seq<u8> {
    seq![3u8] + u64_le_bytes(amount)
}

/// What the token program's mint instruction for the given accounts and
/// amount looks like: the instruction the `mint` operation promises to build.
pub open spec fn is_mint_instruction(
    ix: CpiInstruction,
    mint: Address,
    destination: Address,
    authority: Address,
    amount: u64,
) -> bool {
    &&& ix.program@ == spl_token_id()
    &&& ix.accounts@.len() == 3
    &&& ix.accounts@[0] == (AccountSlot { address: mint, signer: false, writable: true })
    &&& ix.accounts@[1] == (AccountSlot { address: destination, signer: false, writable: true })
    &&& ix.accounts@[2] == (AccountSlot { address: authority, signer: true, writable: false })
    &&& ix.data@ == mint_to_data(amount)
}

/// What the token program's transfer instruction for the given accounts and
/// amount looks like: the instruction the `transfer` operation promises to
/// build.
pub open spec fn is_transfer_instruction(
    ix: CpiInstruction,
    source: Address,
    destination: Address,
    authority: Address,
    amount: u64,
) -> bool {
    &&& ix.program@ == spl_token_id()
    &&& ix.accounts@.len() == 3
    &&& ix.accounts@[0] == (AccountSlot { address: source, signer: false, writable: true })
    &&& ix.accounts@[1] == (AccountSlot { address: destination, signer: false, writable: true })
    &&& ix.accounts@[2] == (AccountSlot { address: authority, signer: true, writable: false })
    &&& ix.data@ == transfer_data(amount)
}

#[verifier::external_type_specification]
#[verifier::external_body]
pub struct ExProgramError(solana_program::program_error::ProgramError);

/// Relies on `spl_token::instruction::mint_to`: called with the token
/// program's own id and no multisig signers, it returns the instruction whose
/// accounts are the mint (writable), the destination (writable) and the
/// minting authority (sole signer), and whose payload is the mint tag
/// followed by the amount in little-endian order.
#[verifier::external_body]
pub(crate) fn build_mint_to(
    mint: &Address,
    destination: &Address,
    authority: &Address,
    amount: u64,
) -> (r: CpiInstruction)
    ensures
        is_mint_instruction(r, *mint, *destination, *authority, amount),
{
    let ix = spl_token::instruction::mint_to(&spl_token::ID, &Pubkey::new_from_array(mint.bytes),
        &Pubkey::new_from_array(destination.bytes), &Pubkey::new_from_array(authority.bytes),
        &[], amount).unwrap();
    let accounts = ix.accounts.iter().map(|m| AccountSlot {
        address: Address { bytes: m.pubkey.to_bytes() }, signer: m.is_signer, writable: m.is_writable,
    }).collect();
    CpiInstruction { program: Address { bytes: ix.program_id.to_bytes() }, accounts, data: ix.data }
}

/// Relies on `spl_token::instruction::transfer`: it accepts exactly the token
/// program's own id and rejects every other, and on acceptance returns the
/// instruction whose accounts are the source (writable), the destination
/// (writable) and the owning authority (sole signer), with the transfer tag
/// and the little-endian amount as payload.
#[verifier::external_body]
pub(crate) fn build_transfer(
    token_program: &Address,
    source: &Address,
    destination: &Address,
    authority: &Address,
    amount: u64,
) -> (r: Result<CpiInstruction, solana_program::program_error::ProgramError>)
    ensures
        r is Ok <==> token_program@ == spl_token_id(),
        r matches Ok(ix) ==> is_transfer_instruction(ix, *source, *destination, *authority, amount),
{
    let built = spl_token::instruction::transfer(&Pubkey::new_from_array(token_program.bytes),
        &Pubkey::new_from_array(source.bytes), &Pubkey::new_from_array(destination.bytes),
        &Pubkey::new_from_array(authority.bytes), &[], amount);
    match built {
        Ok(ix) => Ok(CpiInstruction {
            program: Address { bytes: ix.program_id.to_bytes() },
            accounts: ix.accounts.iter().map(|m| AccountSlot {
                address: Address { bytes: m.pubkey.to_bytes() }, signer: m.is_signer, writable: m.is_writable,
            }).collect(),
            data: ix.data,
        }),
        Err(e) => Err(e),
    }
}

} // verus!
