//! The delegated operations, held against the wrapped programs' own builders.

use simplespl::address::Address;
use simplespl::ledger::Ledger;
use simplespl::metadata_program::{
    mpl_metadata_program_address, CreatorEntry, MetadataAccounts,
};
use simplespl::simplespl::{
    create_or_update_metadata, mint, mint_simple, transfer_simple, MintSimpleAccounts,
};
use simplespl::token_program::spl_token_program_address;
use simplespl::HelperError;
use solana_program::pubkey::Pubkey;

fn addr(tag: u8) -> Address {
    Address::new([tag; 32])
}

/// A program id, an authority derived from seeds under it, and the seed set
/// (seed plus bump) that the host would accept as that authority's signature.
fn derived_authority() -> (Address, Address, Vec<Vec<u8>>) {
    let program = Pubkey::new_unique();
    let (pda, bump) = Pubkey::find_program_address(&[b"vault"], &program);
    let seeds = vec![b"vault".to_vec(), vec![bump]];
    (Address::new(program.to_bytes()), Address::new(pda.to_bytes()), seeds)
}

#[test]
fn program_ids_match_the_wrapped_crates() {
    assert_eq!(spl_token_program_address().bytes, spl_token::ID.to_bytes());
    assert_eq!(mpl_metadata_program_address().bytes, mpl_token_metadata::ID.to_bytes());
}

#[test]
fn mint_builds_the_token_programs_instruction() {
    let (program, authority, seeds) = derived_authority();
    let mint_account = addr(1);
    let destination = addr(2);
    let ix = mint(&mint_account, &destination, &authority, 1000, &program, &seeds).unwrap();

    let expected = spl_token::instruction::mint_to(
        &spl_token::ID,
        &Pubkey::new_from_array(mint_account.bytes),
        &Pubkey::new_from_array(destination.bytes),
        &Pubkey::new_from_array(authority.bytes),
        &[],
        1000,
    )
    .unwrap();
    assert_eq!(ix.program.bytes, expected.program_id.to_bytes());
    assert_eq!(ix.data, expected.data);
    assert_eq!(ix.data, vec![7, 232, 3, 0, 0, 0, 0, 0, 0]);
    assert_eq!(ix.accounts.len(), 3);
    for (slot, meta) in ix.accounts.iter().zip(expected.accounts.iter()) {
        assert_eq!(slot.address.bytes, meta.pubkey.to_bytes());
        assert_eq!(slot.signer, meta.is_signer);
        assert_eq!(slot.writable, meta.is_writable);
    }
}

#[test]
fn mint_with_wrong_seeds_is_a_signing_error() {
    let (program, authority, _) = derived_authority();
    let bad_seeds = vec![b"treasury".to_vec()];
    let r = mint(&addr(1), &addr(2), &authority, 1000, &program, &bad_seeds);
    assert_eq!(r.unwrap_err(), HelperError::SigningError);
}

#[test]
fn transfer_builds_the_token_programs_instruction() {
    let (program, authority, seeds) = derived_authority();
    let token_program = spl_token_program_address();
    let mint_account = addr(1);
    let source = addr(2);
    let destination = addr(3);
    let ix = transfer_simple(
        &mint_account,
        &token_program,
        &source,
        &destination,
        &authority,
        500,
        &program,
        &seeds,
    )
    .unwrap();

    let expected = spl_token::instruction::transfer(
        &spl_token::ID,
        &Pubkey::new_from_array(source.bytes),
        &Pubkey::new_from_array(destination.bytes),
        &Pubkey::new_from_array(authority.bytes),
        &[],
        500,
    )
    .unwrap();
    assert_eq!(ix.program.bytes, expected.program_id.to_bytes());
    assert_eq!(ix.data, expected.data);
    assert_eq!(ix.data, vec![3, 244, 1, 0, 0, 0, 0, 0, 0]);
    for (slot, meta) in ix.accounts.iter().zip(expected.accounts.iter()) {
        assert_eq!(slot.address.bytes, meta.pubkey.to_bytes());
        assert_eq!(slot.signer, meta.is_signer);
        assert_eq!(slot.writable, meta.is_writable);
    }
}

#[test]
fn transfer_with_wrong_token_program_is_an_external_error() {
    let (program, authority, seeds) = derived_authority();
    let r = transfer_simple(
        &addr(1),
        &addr(9),
        &addr(2),
        &addr(3),
        &authority,
        500,
        &program,
        &seeds,
    );
    assert_eq!(r.unwrap_err(), HelperError::ExternalProgramError);
}

#[test]
fn transfer_with_wrong_seeds_is_a_signing_error() {
    let (program, authority, mut seeds) = derived_authority();
    seeds[0].push(0);
    let token_program = spl_token_program_address();
    let r = transfer_simple(
        &addr(1),
        &token_program,
        &addr(2),
        &addr(3),
        &authority,
        500,
        &program,
        &seeds,
    );
    assert_eq!(r.unwrap_err(), HelperError::SigningError);
}

fn metadata_keys(update_authority: Address) -> MetadataAccounts {
    MetadataAccounts {
        payer: addr(11),
        update_authority,
        mint: addr(12),
        metadata: addr(13),
        mint_authority: addr(14),
        system_program: addr(15),
        rent: Some(addr(16)),
    }
}

#[test]
fn metadata_instruction_matches_the_metadata_crates_builder() {
    let (program, authority, seeds) = derived_authority();
    let keys = metadata_keys(authority);
    let name = String::from("Token");
    let symbol = String::from("TKN");
    let uri = String::from("https://example.com/meta.json");
    let creator = Some(CreatorEntry { address: keys.mint, verified: true, share: 100 });
    let ix = create_or_update_metadata(
        &name, &symbol, &uri, 500, &keys, &creator, &program, &seeds,
    )
    .unwrap();

    let expected = mpl_token_metadata::instructions::CreateMetadataAccountV3 {
        metadata: keys.metadata.bytes.into(),
        mint: keys.mint.bytes.into(),
        mint_authority: keys.mint_authority.bytes.into(),
        payer: keys.payer.bytes.into(),
        update_authority: (keys.update_authority.bytes.into(), true),
        system_program: keys.system_program.bytes.into(),
        rent: Some(addr(16).bytes.into()),
    }
    .instruction(mpl_token_metadata::instructions::CreateMetadataAccountV3InstructionArgs {
        data: mpl_token_metadata::types::DataV2 {
            name: name.clone(),
            symbol: symbol.clone(),
            uri: uri.clone(),
            seller_fee_basis_points: 500,
            creators: Some(vec![mpl_token_metadata::types::Creator {
                address: keys.mint.bytes.into(),
                verified: true,
                share: 100,
            }]),
            collection: None,
            uses: None,
        },
        is_mutable: true,
        collection_details: None,
    });
    assert_eq!(ix.program.bytes, expected.program_id.to_bytes());
    assert_eq!(ix.data, expected.data);
    assert_eq!(ix.accounts.len(), expected.accounts.len());
    for (slot, meta) in ix.accounts.iter().zip(expected.accounts.iter()) {
        assert_eq!(slot.address.bytes, meta.pubkey.to_bytes());
        assert_eq!(slot.signer, meta.is_signer);
        assert_eq!(slot.writable, meta.is_writable);
    }
}

#[test]
fn metadata_with_wrong_seeds_is_a_signing_error() {
    let (program, authority, _) = derived_authority();
    let keys = metadata_keys(authority);
    let r = create_or_update_metadata(
        &String::from("Token"),
        &String::from("TKN"),
        &String::from("https://example.com/meta.json"),
        500,
        &keys,
        &None,
        &program,
        &vec![b"other".to_vec()],
    );
    assert_eq!(r.unwrap_err(), HelperError::SigningError);
}

#[test]
fn mint_simple_returns_metadata_then_mint() {
    let (program, authority, seeds) = derived_authority();
    let keys = MintSimpleAccounts {
        payer: addr(11),
        update_authority: authority,
        metadata: addr(13),
        mint_authority: addr(14),
        system_program: addr(15),
        rent: Some(addr(16)),
        mint: addr(12),
        destination: addr(17),
        owner: authority,
    };
    let v = mint_simple(
        String::from("Token"),
        String::from("TKN"),
        String::from("https://example.com/meta.json"),
        500,
        &keys,
        &program,
        &seeds,
        1000,
    )
    .unwrap();
    assert_eq!(v.len(), 2);
    assert_eq!(v[0].program.bytes, mpl_token_metadata::ID.to_bytes());
    assert_eq!(v[1].program.bytes, spl_token::ID.to_bytes());
    assert_eq!(v[1].data, vec![7, 232, 3, 0, 0, 0, 0, 0, 0]);

    let expected = mpl_token_metadata::instructions::CreateMetadataAccountV3 {
        metadata: keys.metadata.bytes.into(),
        mint: keys.mint.bytes.into(),
        mint_authority: keys.mint_authority.bytes.into(),
        payer: keys.payer.bytes.into(),
        update_authority: (keys.update_authority.bytes.into(), true),
        system_program: keys.system_program.bytes.into(),
        rent: Some(addr(16).bytes.into()),
    }
    .instruction(mpl_token_metadata::instructions::CreateMetadataAccountV3InstructionArgs {
        data: mpl_token_metadata::types::DataV2 {
            name: String::from("Token"),
            symbol: String::from("TKN"),
            uri: String::from("https://example.com/meta.json"),
            seller_fee_basis_points: 500,
            creators: Some(vec![mpl_token_metadata::types::Creator {
                address: keys.mint.bytes.into(),
                verified: true,
                share: 100,
            }]),
            collection: None,
            uses: None,
        },
        is_mutable: true,
        collection_details: None,
    });
    assert_eq!(v[0].data, expected.data);
}

#[test]
fn amount_encoding_covers_the_extremes() {
    let (program, authority, seeds) = derived_authority();
    let zero = mint(&addr(1), &addr(2), &authority, 0, &program, &seeds).unwrap();
    assert_eq!(zero.data, vec![7, 0, 0, 0, 0, 0, 0, 0, 0]);
    let full = mint(&addr(1), &addr(2), &authority, u64::MAX, &program, &seeds).unwrap();
    assert_eq!(full.data, vec![7, 255, 255, 255, 255, 255, 255, 255, 255]);
    assert_eq!(
        full.data[1..],
        spl_token::instruction::mint_to(
            &spl_token::ID,
            &Pubkey::new_from_array([1; 32]),
            &Pubkey::new_from_array([2; 32]),
            &Pubkey::new_from_array(authority.bytes),
            &[],
            u64::MAX,
        )
        .unwrap()
        .data[1..]
    );
}

#[test]
fn mint_simple_with_foreign_owner_is_a_signing_error() {
    let (program, authority, seeds) = derived_authority();
    let keys = MintSimpleAccounts {
        payer: addr(11),
        update_authority: authority,
        metadata: addr(13),
        mint_authority: addr(14),
        system_program: addr(15),
        rent: None,
        mint: addr(12),
        destination: addr(17),
        owner: addr(18),
    };
    let r = mint_simple(
        String::from("Token"),
        String::from("TKN"),
        String::from("https://example.com/meta.json"),
        500,
        &keys,
        &program,
        &seeds,
        1000,
    );
    assert_eq!(r.unwrap_err(), HelperError::SigningError);
}

#[test]
fn built_instructions_run_against_the_ledger_model() {
    let (program, authority, seeds) = derived_authority();
    let mint_account = addr(1);
    let source = addr(2);
    let destination = addr(3);
    let token_program = spl_token_program_address();

    let mut ledger = Ledger::new();
    assert!(ledger.new_account(&source).is_ok());
    assert!(ledger.new_account(&destination).is_ok());

    let mint_ix = mint(&mint_account, &source, &authority, 1000, &program, &seeds).unwrap();
    assert!(ledger.execute_token_instruction(&mint_ix).is_ok());
    assert_eq!(ledger.balance_of(&source), 1000);

    let transfer_ix = transfer_simple(
        &mint_account,
        &token_program,
        &source,
        &destination,
        &authority,
        500,
        &program,
        &seeds,
    )
    .unwrap();
    assert!(ledger.execute_token_instruction(&transfer_ix).is_ok());
    assert_eq!(ledger.balance_of(&source), 500);
    assert_eq!(ledger.balance_of(&destination), 500);

    let foreign = simplespl::instruction::CpiInstruction {
        program: addr(9),
        accounts: mint_ix.accounts.clone(),
        data: mint_ix.data.clone(),
    };
    let r = ledger.execute_token_instruction(&foreign);
    assert_eq!(r.unwrap_err(), HelperError::ExternalProgramError);
    assert_eq!(ledger.balance_of(&source), 500);
}
