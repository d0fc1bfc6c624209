//! The plan of one mint: every argument of its three steps.

use vstd::prelude::*;
use solana_program::pubkey::Pubkey;
use mpl_token_metadata::types::Creator;
use crate::creators::{creators_for, nft_creators};

verus! {

/// The accounts one mint touches, by their keys, in the order the handler
/// receives them.
pub struct MintAccounts {
    pub master_edition: Pubkey,
    pub metadata: Pubkey,
    pub mint: Pubkey,
    pub mint_authority: Pubkey,
    pub payer: Pubkey,
    pub rent: Pubkey,
    pub system_program: Pubkey,
    pub token_account: Pubkey,
    pub token_program: Pubkey,
    pub token_metadata_program: Pubkey,
}

/// Arguments of the token program's mint-to step: mint `amount` fresh tokens
/// of `mint` into `destination`, on the authority of `authority`.
pub struct MintToStep {
    pub mint: Pubkey,
    pub destination: Pubkey,
    pub authority: Pubkey,
    pub amount: u64,
}

/// The descriptive fields of a metadata record. The planner never sets the
/// record's collection or uses fields.
pub struct MetadataContent {
    pub name: String,
    pub symbol: String,
    pub uri: String,
    pub seller_fee_basis_points: u16,
    pub creators: Vec<Creator>,
}

/// Arguments of the create-metadata step: the accounts the metadata program
/// reads or writes, the record's content, and whether the record stays
/// mutable.
pub struct CreateMetadataStep {
    pub metadata_account: Pubkey,
    pub mint: Pubkey,
    pub mint_authority: Pubkey,
    pub payer: Pubkey,
    pub update_authority: Pubkey,
    pub update_authority_is_signer: bool,
    pub system_program: Pubkey,
    pub rent: Pubkey,
    pub content: MetadataContent,
    pub is_mutable: bool,
}

/// Arguments of the create-master-edition step: the accounts the metadata
/// program reads or writes, and the cap on further prints.
pub struct CreateMasterEditionStep {
    pub edition_account: Pubkey,
    pub mint: Pubkey,
    pub update_authority: Pubkey,
    pub mint_authority: Pubkey,
    pub metadata_account: Pubkey,
    pub payer: Pubkey,
    pub token_program: Pubkey,
    pub system_program: Pubkey,
    pub rent: Pubkey,
    pub max_supply: Option<u64>,
}

/// The whole plan, with the steps in the order they run: mint one token,
/// create the metadata record, create the master edition.
pub struct MintNftPlan {
    pub mint_to: MintToStep,
    pub create_metadata: CreateMetadataStep,
    pub create_master_edition: CreateMasterEditionStep,
}

/// Lays out one mint. One token goes to the holder's token account on the
/// payer's authority; the metadata record carries the caller's title and URI
/// under the fixed symbol, a seller fee of one basis point, and the planned
/// creator list, and is created immutable with the payer as its update
/// authority; the master edition allows no further prints.
pub fn mint_nft_plan(
    accounts: &MintAccounts,
    collection_key: Pubkey,
    metadata_uri: String,
    metadata_title: String,
) -> (p: MintNftPlan)
    ensures
        p.mint_to.mint == accounts.mint,
        p.mint_to.destination == accounts.token_account,
        p.mint_to.authority == accounts.payer,
        p.mint_to.amount == 1,
        p.create_metadata.metadata_account == accounts.metadata,
        p.create_metadata.mint == accounts.mint,
        p.create_metadata.mint_authority == accounts.mint_authority,
        p.create_metadata.payer == accounts.payer,
        p.create_metadata.update_authority == accounts.payer,
        p.create_metadata.update_authority_is_signer == true,
        p.create_metadata.system_program == accounts.system_program,
        p.create_metadata.rent == accounts.rent,
        p.create_metadata.content.name@ == metadata_title@,
        p.create_metadata.content.symbol@ == "ARTIST"@,
        p.create_metadata.content.uri@ == metadata_uri@,
        p.create_metadata.content.seller_fee_basis_points == 1,
        p.create_metadata.content.creators@ == creators_for(collection_key, accounts.mint_authority),
        p.create_metadata.is_mutable == false,
        p.create_master_edition.edition_account == accounts.master_edition,
        p.create_master_edition.mint == accounts.mint,
        p.create_master_edition.update_authority == accounts.payer,
        p.create_master_edition.mint_authority == accounts.mint_authority,
        p.create_master_edition.metadata_account == accounts.metadata,
        p.create_master_edition.payer == accounts.payer,
        p.create_master_edition.token_program == accounts.token_program,
        p.create_master_edition.system_program == accounts.system_program,
        p.create_master_edition.rent == accounts.rent,
        p.create_master_edition.max_supply == Some(0u64),
{
    let mint_to = MintToStep {
        mint: accounts.mint,
        destination: accounts.token_account,
        authority: accounts.payer,
        amount: 1,
    };
    let content = MetadataContent {
        name: metadata_title,
        symbol: "ARTIST".to_owned(),
        uri: metadata_uri,
        seller_fee_basis_points: 1,
        creators: nft_creators(collection_key, accounts.mint_authority),
    };
    let create_metadata = CreateMetadataStep {
        metadata_account: accounts.metadata,
        mint: accounts.mint,
        mint_authority: accounts.mint_authority,
        payer: accounts.payer,
        update_authority: accounts.payer,
        update_authority_is_signer: true,
        system_program: accounts.system_program,
        rent: accounts.rent,
        content,
        is_mutable: false,
    };
    let create_master_edition = CreateMasterEditionStep {
        edition_account: accounts.master_edition,
        mint: accounts.mint,
        update_authority: accounts.payer,
        mint_authority: accounts.mint_authority,
        metadata_account: accounts.metadata,
        payer: accounts.payer,
        token_program: accounts.token_program,
        system_program: accounts.system_program,
        rent: accounts.rent,
        max_supply: Some(0),
    };
    MintNftPlan { mint_to, create_metadata, create_master_edition }
}

} // verus!
