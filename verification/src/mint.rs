//! The whole mint, planned and built in one call.

use vstd::prelude::*;
use solana_program::instruction::Instruction;
use solana_program::pubkey::Pubkey;
use crate::creators::creators_for;
use crate::ix::{
    build_create_master_edition_instruction, build_create_metadata_instruction,
    master_edition_instruction_bytes, metadata_instruction_data, metadata_program_key,
    MAX_TEXT_CHARS,
};
use crate::plan::{mint_nft_plan, MintAccounts, MintToStep};

verus! {

/// Everything the handler submits, in the order it runs: the mint-to step's
/// arguments, then the two instructions for the metadata program.
pub struct MintNftInstructions {
    pub mint_to: MintToStep,
    pub create_metadata: Instruction,
    pub create_master_edition: Instruction,
}

/// Computes the three steps of one mint. One token of `accounts.mint` goes to
/// the holder's token account on the payer's authority. The create-metadata
/// instruction addresses the metadata program and writes the metadata account
/// for the mint, carrying the caller's title and URI under the fixed symbol,
/// a seller fee of one basis point, and the planned creator list, immutable,
/// with the payer as update authority and a signer. The create-master-edition
/// instruction addresses the same program, writes the master-edition account
/// for the same mint, and caps further prints at none. The bounds on the
/// title and the URI keep their bytes within the instruction encoding's
/// 32-bit length prefix.
pub fn mint_nft_instructions(
    accounts: &MintAccounts,
    collection_key: Pubkey,
    metadata_uri: String,
    metadata_title: String,
) -> (r: MintNftInstructions)
    requires
        metadata_title@.len() <= MAX_TEXT_CHARS,
        metadata_uri@.len() <= MAX_TEXT_CHARS,
    ensures
        r.mint_to.mint == accounts.mint,
        r.mint_to.destination == accounts.token_account,
        r.mint_to.authority == accounts.payer,
        r.mint_to.amount == 1,
        r.create_metadata.program_id == metadata_program_key(()),
        r.create_metadata.accounts@.len() == 7,
        r.create_metadata.accounts@[0].pubkey == accounts.metadata,
        r.create_metadata.accounts@[0].is_writable && !r.create_metadata.accounts@[0].is_signer,
        r.create_metadata.accounts@[1].pubkey == accounts.mint,
        !r.create_metadata.accounts@[1].is_writable && !r.create_metadata.accounts@[1].is_signer,
        r.create_metadata.accounts@[2].pubkey == accounts.mint_authority,
        !r.create_metadata.accounts@[2].is_writable && r.create_metadata.accounts@[2].is_signer,
        r.create_metadata.accounts@[3].pubkey == accounts.payer,
        r.create_metadata.accounts@[3].is_writable && r.create_metadata.accounts@[3].is_signer,
        r.create_metadata.accounts@[4].pubkey == accounts.payer,
        !r.create_metadata.accounts@[4].is_writable && r.create_metadata.accounts@[4].is_signer,
        r.create_metadata.accounts@[5].pubkey == accounts.system_program,
        !r.create_metadata.accounts@[5].is_writable && !r.create_metadata.accounts@[5].is_signer,
        r.create_metadata.accounts@[6].pubkey == accounts.rent,
        !r.create_metadata.accounts@[6].is_writable && !r.create_metadata.accounts@[6].is_signer,
        r.create_metadata.data@ == metadata_instruction_data(
            metadata_title@,
            "ARTIST"@,
            metadata_uri@,
            1u16,
            creators_for(collection_key, accounts.mint_authority),
            false,
        ),
        r.create_master_edition.program_id == metadata_program_key(()),
        r.create_master_edition.accounts@.len() == 9,
        r.create_master_edition.accounts@[0].pubkey == accounts.master_edition,
        r.create_master_edition.accounts@[0].is_writable
            && !r.create_master_edition.accounts@[0].is_signer,
        r.create_master_edition.accounts@[1].pubkey == accounts.mint,
        r.create_master_edition.accounts@[1].is_writable
            && !r.create_master_edition.accounts@[1].is_signer,
        r.create_master_edition.accounts@[2].pubkey == accounts.payer,
        !r.create_master_edition.accounts@[2].is_writable
            && r.create_master_edition.accounts@[2].is_signer,
        r.create_master_edition.accounts@[3].pubkey == accounts.mint_authority,
        !r.create_master_edition.accounts@[3].is_writable
            && r.create_master_edition.accounts@[3].is_signer,
        r.create_master_edition.accounts@[4].pubkey == accounts.payer,
        r.create_master_edition.accounts@[4].is_writable
            && r.create_master_edition.accounts@[4].is_signer,
        r.create_master_edition.accounts@[5].pubkey == accounts.metadata,
        r.create_master_edition.accounts@[5].is_writable
            && !r.create_master_edition.accounts@[5].is_signer,
        r.create_master_edition.accounts@[6].pubkey == accounts.token_program,
        !r.create_master_edition.accounts@[6].is_writable
            && !r.create_master_edition.accounts@[6].is_signer,
        r.create_master_edition.accounts@[7].pubkey == accounts.system_program,
        !r.create_master_edition.accounts@[7].is_writable
            && !r.create_master_edition.accounts@[7].is_signer,
        r.create_master_edition.accounts@[8].pubkey == accounts.rent,
        !r.create_master_edition.accounts@[8].is_writable
            && !r.create_master_edition.accounts@[8].is_signer,
        r.create_master_edition.data@ == master_edition_instruction_bytes(Some(0u64)),
{
    let plan = mint_nft_plan(accounts, collection_key, metadata_uri, metadata_title);
    proof {
        reveal_strlit("ARTIST");
    }
    let create_metadata = build_create_metadata_instruction(&plan.create_metadata);
    let create_master_edition = build_create_master_edition_instruction(&plan.create_master_edition);
    MintNftInstructions { mint_to: plan.mint_to, create_metadata, create_master_edition }
}

} // verus!
