//! The delegated token operations.
//!
//! Each operation here stands in for a caller that owns no wallet signature:
//! it first checks that the supplied seed set, derived through the signing
//! program, yields exactly the authority account the instruction will name —
//! the condition under which the host runtime will honour the seeds as that
//! account's signature — and only then assembles the instruction for the
//! wrapped program. A seed mismatch is rejected as a [`HelperError::SigningError`]
//! before anything is built, so no instruction exists that the runtime would
//! refuse to sign.

use vstd::prelude::*;
use crate::address::Address;
use crate::derivation::{program_address_of, seeds_derive_authority};
use crate::instruction::CpiInstruction;
use crate::metadata_program::{
    build_create_metadata_v3, creator_view, is_create_metadata_instruction, CreatorEntry,
    MetadataAccounts,
};
use crate::token_program::{
    build_mint_to, build_transfer, is_mint_instruction, is_transfer_instruction, spl_token_id,
};
use crate::HelperError;

verus! {

/// Builds the mint instruction: `amount` base units of `mint_account`'s
/// token are to be credited to `destination`, on the authority of
/// `authority`. The seed set must derive `authority` through
/// `signing_program`; otherwise nothing is built and the operation fails
/// with a signing error.
pub fn mint(
    mint_account: &Address,
    destination: &Address,
    authority: &Address,
    amount: u64,
    signing_program: &Address,
    signer_seeds: &Vec<Vec<u8>>,
) -> (r: Result<CpiInstruction, HelperError>)
    ensures
        program_address_of(signer_seeds.deep_view(), signing_program@) != Some(authority@)
            ==> r == Err::<CpiInstruction, HelperError>(HelperError::SigningError),
        program_address_of(signer_seeds.deep_view(), signing_program@) == Some(authority@) ==> (
        r matches Ok(ix) && is_mint_instruction(ix, *mint_account, *destination, *authority, amount)),
{
    if !seeds_derive_authority(signer_seeds, signing_program, authority) {
        return Err(HelperError::SigningError);
    }
    Ok(build_mint_to(mint_account, destination, authority, amount))
}

/// Builds the transfer instruction: `amount` base units move from `source`
/// to `destination`, on the authority of `authority`. The `mint` account is
/// informational: callers list it in the invocation, but the token program's
/// transfer instruction does not name it. The seed set must derive
/// `authority` through `signing_program`, and `token_program` must be the
/// token program's own id; otherwise the operation fails with a signing
/// error or an external-program error respectively.
pub fn transfer_simple(
    mint: &Address,
    token_program: &Address,
    source: &Address,
    destination: &Address,
    authority: &Address,
    amount: u64,
    signing_program: &Address,
    signer_seeds: &Vec<Vec<u8>>,
) -> (r: Result<CpiInstruction, HelperError>)
    ensures
        program_address_of(signer_seeds.deep_view(), signing_program@) != Some(authority@)
            ==> r == Err::<CpiInstruction, HelperError>(HelperError::SigningError),
        program_address_of(signer_seeds.deep_view(), signing_program@) == Some(authority@)
            && token_program@ != spl_token_id() ==> r == Err::<CpiInstruction, HelperError>(
            HelperError::ExternalProgramError,
        ),
        program_address_of(signer_seeds.deep_view(), signing_program@) == Some(authority@)
            && token_program@ == spl_token_id() ==> (r matches Ok(ix) && is_transfer_instruction(
            ix,
            *source,
            *destination,
            *authority,
            amount,
        )),
{
    let _ = mint;
    if !seeds_derive_authority(signer_seeds, signing_program, authority) {
        return Err(HelperError::SigningError);
    }
    match build_transfer(token_program, source, destination, authority, amount) {
        Ok(ix) => Ok(ix),
        Err(_) => Err(HelperError::ExternalProgramError),
    }
}

/// Builds the create-or-update-metadata instruction: the record made of
/// `name`, `symbol`, `uri`, the seller fee and the optional creator is to be
/// written under the metadata account in `keys`, mutable forever. The seed
/// set must derive the update authority through `signing_program`; otherwise
/// nothing is built and the operation fails with a signing error.
pub fn create_or_update_metadata(
    name: &String,
    symbol: &String,
    uri: &String,
    seller_fee_basis_points: u16,
    keys: &MetadataAccounts,
    creator: &Option<CreatorEntry>,
    signing_program: &Address,
    signer_seeds: &Vec<Vec<u8>>,
) -> (r: Result<CpiInstruction, HelperError>)
    requires
        name@.len() <= 0x3fffffff,
        symbol@.len() <= 0x3fffffff,
        uri@.len() <= 0x3fffffff,
    ensures
        program_address_of(signer_seeds.deep_view(), signing_program@) != Some(
            keys.update_authority@,
        ) ==> r == Err::<CpiInstruction, HelperError>(HelperError::SigningError),
        program_address_of(signer_seeds.deep_view(), signing_program@) == Some(
            keys.update_authority@,
        ) ==> (r matches Ok(ix) && is_create_metadata_instruction(
            ix,
            *keys,
            name@,
            symbol@,
            uri@,
            seller_fee_basis_points,
            creator_view(*creator),
            true,
        )),
{
    if !seeds_derive_authority(signer_seeds, signing_program, &keys.update_authority) {
        return Err(HelperError::SigningError);
    }
    Ok(build_create_metadata_v3(keys, name, symbol, uri, seller_fee_basis_points, creator, true))
}

/// The account roles that minting with bundled metadata names.
#[derive(Clone, Copy, PartialEq, Eq, Debug)]
pub struct MintSimpleAccounts {
    /// The account paying for the metadata account's rent.
    pub payer: Address,
    /// The authority allowed to change the record later.
    pub update_authority: Address,
    /// The metadata account that holds the record.
    pub metadata: Address,
    /// The mint's minting authority named in the metadata instruction.
    pub mint_authority: Address,
    /// The system program.
    pub system_program: Address,
    /// The rent sysvar, where the metadata instruction is to name it.
    pub rent: Option<Address>,
    /// The mint whose tokens are minted and described.
    pub mint: Address,
    /// The account credited with the minted tokens.
    pub destination: Address,
    /// The minting authority the mint instruction names.
    pub owner: Address,
}

/// The metadata account roles inside a [`MintSimpleAccounts`].
pub open spec fn metadata_accounts_of(keys: MintSimpleAccounts) -> MetadataAccounts {
    MetadataAccounts {
        payer: keys.payer,
        update_authority: keys.update_authority,
        mint: keys.mint,
        metadata: keys.metadata,
        mint_authority: keys.mint_authority,
        system_program: keys.system_program,
        rent: keys.rent,
    }
}

/// Mints new tokens with bundled metadata: first the instruction that writes
/// the record — named, symboled and priced as given, crediting the mint
/// itself as the sole verified creator with the full share — then the
/// instruction that credits `amount` base units to the destination. The two
/// instructions are returned in the order they are to be invoked. The seed
/// set must derive both the update authority and the minting authority
/// through `signing_program`; otherwise nothing is built and the operation
/// fails with a signing error.
pub fn mint_simple(
    token_name: String,
    token_symbol: String,
    token_uri: String,
    token_tax: u16,
    keys: &MintSimpleAccounts,
    signing_program: &Address,
    signer_seeds: &Vec<Vec<u8>>,
    amount: u64,
) -> (r: Result<Vec<CpiInstruction>, HelperError>)
    requires
        token_name@.len() <= 0x3fffffff,
        token_symbol@.len() <= 0x3fffffff,
        token_uri@.len() <= 0x3fffffff,
    ensures
        program_address_of(signer_seeds.deep_view(), signing_program@) != Some(
            keys.update_authority@,
        ) || program_address_of(signer_seeds.deep_view(), signing_program@) != Some(keys.owner@)
            ==> r == Err::<Vec<CpiInstruction>, HelperError>(HelperError::SigningError),
        program_address_of(signer_seeds.deep_view(), signing_program@) == Some(
            keys.update_authority@,
        ) && program_address_of(signer_seeds.deep_view(), signing_program@) == Some(keys.owner@)
            ==> (r matches Ok(v) && v@.len() == 2 && is_create_metadata_instruction(
            v@[0],
            metadata_accounts_of(*keys),
            token_name@,
            token_symbol@,
            token_uri@,
            token_tax,
            Some((keys.mint@, true, 100u8)),
            true,
        ) && is_mint_instruction(v@[1], keys.mint, keys.destination, keys.owner, amount)),
{
    let meta_keys = MetadataAccounts {
        payer: keys.payer,
        update_authority: keys.update_authority,
        mint: keys.mint,
        metadata: keys.metadata,
        mint_authority: keys.mint_authority,
        system_program: keys.system_program,
        rent: keys.rent,
    };
    let creator = Some(CreatorEntry { address: keys.mint, verified: true, share: 100 });
    let metadata_ix = match create_or_update_metadata(
        &token_name,
        &token_symbol,
        &token_uri,
        token_tax,
        &meta_keys,
        &creator,
        signing_program,
        signer_seeds,
    ) {
        Ok(ix) => ix,
        Err(e) => {
            return Err(e);
        },
    };
    let mint_ix = match mint(
        &keys.mint,
        &keys.destination,
        &keys.owner,
        amount,
        signing_program,
        signer_seeds,
    ) {
        Ok(ix) => ix,
        Err(e) => {
            return Err(e);
        },
    };
    let mut instructions: Vec<CpiInstruction> = Vec::new();
    instructions.push(metadata_ix);
    instructions.push(mint_ix);
    Ok(instructions)
}

} // verus!
