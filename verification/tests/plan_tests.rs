use borsh::BorshDeserialize;
use mpl_token_metadata::instructions::{
    CreateMasterEditionV3, CreateMasterEditionV3InstructionArgs, CreateMetadataAccountV3,
    CreateMetadataAccountV3InstructionArgs,
};
use mpl_token_metadata::types::{Creator, DataV2};
use nft_mint_plan::creators::nft_creators;
use nft_mint_plan::ix::metadata_program_id;
use nft_mint_plan::mint::mint_nft_instructions;
use nft_mint_plan::plan::{mint_nft_plan, MintAccounts};
use solana_program::pubkey::Pubkey;

fn key(n: u8) -> Pubkey {
    Pubkey::new_from_array([n; 32])
}

fn accounts() -> MintAccounts {
    MintAccounts {
        master_edition: key(1),
        metadata: key(2),
        mint: key(3),
        mint_authority: key(4),
        payer: key(5),
        rent: key(6),
        system_program: key(7),
        token_account: key(8),
        token_program: key(9),
        token_metadata_program: key(10),
    }
}

#[test]
fn creator_list_has_collection_then_authority() {
    let v = nft_creators(key(11), key(12));
    assert_eq!(v.len(), 2);
    assert_eq!(v[0].address, key(11));
    assert!(!v[0].verified);
    assert_eq!(v[0].share, 100);
    assert_eq!(v[1].address, key(12));
    assert!(!v[1].verified);
    assert_eq!(v[1].share, 0);
    assert_eq!(v[0].share as u16 + v[1].share as u16, 100);
}

#[test]
fn plan_mints_one_token_to_holder() {
    let a = accounts();
    let p = mint_nft_plan(&a, key(20), String::from("https://arweave.net/abc"), String::from("My NFT"));
    assert_eq!(p.mint_to.mint, a.mint);
    assert_eq!(p.mint_to.destination, a.token_account);
    assert_eq!(p.mint_to.authority, a.payer);
    assert_eq!(p.mint_to.amount, 1);
}

#[test]
fn plan_metadata_fields_are_pinned() {
    let a = accounts();
    let p = mint_nft_plan(&a, key(20), String::from("https://arweave.net/abc"), String::from("My NFT"));
    let m = &p.create_metadata;
    assert_eq!(m.metadata_account, a.metadata);
    assert_eq!(m.mint, a.mint);
    assert_eq!(m.mint_authority, a.mint_authority);
    assert_eq!(m.payer, a.payer);
    assert_eq!(m.update_authority, a.payer);
    assert!(m.update_authority_is_signer);
    assert_eq!(m.system_program, a.system_program);
    assert_eq!(m.rent, a.rent);
    assert_eq!(m.content.name, "My NFT");
    assert_eq!(m.content.symbol, "ARTIST");
    assert_eq!(m.content.uri, "https://arweave.net/abc");
    assert_eq!(m.content.seller_fee_basis_points, 1);
    assert_eq!(m.content.creators.len(), 2);
    assert_eq!(m.content.creators[0].address, key(20));
    assert_eq!(m.content.creators[0].share, 100);
    assert_eq!(m.content.creators[1].address, a.mint_authority);
    assert_eq!(m.content.creators[1].share, 0);
    assert!(!m.is_mutable);
}

#[test]
fn plan_master_edition_allows_no_prints() {
    let a = accounts();
    let p = mint_nft_plan(&a, key(20), String::from("u"), String::from("t"));
    let e = &p.create_master_edition;
    assert_eq!(e.edition_account, a.master_edition);
    assert_eq!(e.mint, a.mint);
    assert_eq!(e.update_authority, a.payer);
    assert_eq!(e.mint_authority, a.mint_authority);
    assert_eq!(e.metadata_account, a.metadata);
    assert_eq!(e.payer, a.payer);
    assert_eq!(e.token_program, a.token_program);
    assert_eq!(e.system_program, a.system_program);
    assert_eq!(e.rent, a.rent);
    assert_eq!(e.max_supply, Some(0));
}

#[test]
fn plan_accepts_empty_title_and_uri() {
    let a = accounts();
    let p = mint_nft_plan(&a, key(20), String::new(), String::new());
    assert_eq!(p.create_metadata.content.name, "");
    assert_eq!(p.create_metadata.content.uri, "");
    assert_eq!(p.create_metadata.content.symbol, "ARTIST");
}

#[test]
fn metadata_instruction_addresses_metadata_program() {
    let a = accounts();
    let r = mint_nft_instructions(&a, key(20), String::from("u"), String::from("t"));
    assert_eq!(r.create_metadata.program_id, mpl_token_metadata::ID);
    assert_eq!(metadata_program_id(), mpl_token_metadata::ID);
    assert_eq!(r.create_master_edition.program_id, metadata_program_id());
}

#[test]
fn metadata_instruction_account_layout() {
    let a = accounts();
    let r = mint_nft_instructions(&a, key(20), String::from("u"), String::from("t"));
    let ix = r.create_metadata;
    assert_eq!(ix.accounts.len(), 7);
    let expected: Vec<(Pubkey, bool, bool)> = vec![
        (a.metadata, false, true),
        (a.mint, false, false),
        (a.mint_authority, true, false),
        (a.payer, true, true),
        (a.payer, true, false),
        (a.system_program, false, false),
        (a.rent, false, false),
    ];
    for (i, (pubkey, is_signer, is_writable)) in expected.into_iter().enumerate() {
        assert_eq!(ix.accounts[i].pubkey, pubkey);
        assert_eq!(ix.accounts[i].is_signer, is_signer);
        assert_eq!(ix.accounts[i].is_writable, is_writable);
    }
}

#[test]
fn metadata_instruction_data_round_trips() {
    let a = accounts();
    let r = mint_nft_instructions(&a, key(20), String::from("https://arweave.net/abc"), String::from("My NFT"));
    let ix = r.create_metadata;
    assert_eq!(ix.data[0], 33);
    let args = CreateMetadataAccountV3InstructionArgs::try_from_slice(&ix.data[1..]).unwrap();
    let expected = CreateMetadataAccountV3InstructionArgs {
        data: DataV2 {
            name: String::from("My NFT"),
            symbol: String::from("ARTIST"),
            uri: String::from("https://arweave.net/abc"),
            seller_fee_basis_points: 1,
            creators: Some(vec![
                Creator { address: key(20), verified: false, share: 100 },
                Creator { address: a.mint_authority, verified: false, share: 0 },
            ]),
            collection: None,
            uses: None,
        },
        is_mutable: false,
        collection_details: None,
    };
    assert_eq!(args, expected);
}

#[test]
fn master_edition_instruction_account_layout_and_data() {
    let a = accounts();
    let r = mint_nft_instructions(&a, key(20), String::from("u"), String::from("t"));
    let ix = r.create_master_edition;
    assert_eq!(ix.program_id, mpl_token_metadata::ID);
    assert_eq!(ix.accounts.len(), 9);
    let expected: Vec<(Pubkey, bool, bool)> = vec![
        (a.master_edition, false, true),
        (a.mint, false, true),
        (a.payer, true, false),
        (a.mint_authority, true, false),
        (a.payer, true, true),
        (a.metadata, false, true),
        (a.token_program, false, false),
        (a.system_program, false, false),
        (a.rent, false, false),
    ];
    for (i, (pubkey, is_signer, is_writable)) in expected.into_iter().enumerate() {
        assert_eq!(ix.accounts[i].pubkey, pubkey);
        assert_eq!(ix.accounts[i].is_signer, is_signer);
        assert_eq!(ix.accounts[i].is_writable, is_writable);
    }
    assert_eq!(ix.data, vec![17, 1, 0, 0, 0, 0, 0, 0, 0, 0]);
    let args = CreateMasterEditionV3InstructionArgs::try_from_slice(&ix.data[1..]).unwrap();
    assert_eq!(args.max_supply, Some(0));
}

#[test]
fn mint_nft_instructions_match_direct_builders() {
    let a = accounts();
    let r = mint_nft_instructions(&a, key(20), String::from("https://arweave.net/abc"), String::from("My NFT"));
    assert_eq!(r.mint_to.mint, a.mint);
    assert_eq!(r.mint_to.destination, a.token_account);
    assert_eq!(r.mint_to.authority, a.payer);
    assert_eq!(r.mint_to.amount, 1);
    let expected_metadata = CreateMetadataAccountV3 {
        metadata: a.metadata,
        mint: a.mint,
        mint_authority: a.mint_authority,
        payer: a.payer,
        update_authority: (a.payer, true),
        system_program: a.system_program,
        rent: Some(a.rent),
    }
    .instruction(CreateMetadataAccountV3InstructionArgs {
        data: DataV2 {
            name: String::from("My NFT"),
            symbol: String::from("ARTIST"),
            uri: String::from("https://arweave.net/abc"),
            seller_fee_basis_points: 1,
            creators: Some(vec![
                Creator { address: key(20), verified: false, share: 100 },
                Creator { address: a.mint_authority, verified: false, share: 0 },
            ]),
            collection: None,
            uses: None,
        },
        is_mutable: false,
        collection_details: None,
    });
    assert_eq!(r.create_metadata, expected_metadata);
    let expected_edition = CreateMasterEditionV3 {
        edition: a.master_edition,
        mint: a.mint,
        update_authority: a.payer,
        mint_authority: a.mint_authority,
        payer: a.payer,
        metadata: a.metadata,
        token_program: a.token_program,
        system_program: a.system_program,
        rent: Some(a.rent),
    }
    .instruction(CreateMasterEditionV3InstructionArgs { max_supply: Some(0) });
    assert_eq!(r.create_master_edition, expected_edition);
}
