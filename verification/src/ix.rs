//! The two metadata-program instructions, built by `mpl_token_metadata`.
//!
//! The metadata program's own crate turns a step's arguments into an
//! `Instruction`: the program's fixed address, a fixed account layout, and
//! borsh-serialized argument bytes. The calls stand behind trusted wrappers;
//! their contracts state the account layout that the crate's builders lay
//! down. The create-metadata bytes are long to describe, so they get a name;
//! the create-master-edition bytes are ten at most and are stated outright.

use vstd::prelude::*;
use solana_program::instruction::Instruction;
use solana_program::pubkey::Pubkey;
use mpl_token_metadata::instructions::{
    CreateMasterEditionV3, CreateMasterEditionV3InstructionArgs, CreateMetadataAccountV3,
    CreateMetadataAccountV3InstructionArgs,
};
use mpl_token_metadata::types::{Creator, DataV2};
use crate::plan::{CreateMasterEditionStep, CreateMetadataStep};

verus! {

/// The most characters a planned name, symbol or URI may hold. The builders
/// serialize each string under a 32-bit byte-length prefix, and serialization
/// fails — a panic, behind the builder's unwrap — on anything longer. A
/// character takes at most four bytes, so this bound keeps every byte length
/// within the prefix's range.
pub const MAX_TEXT_CHARS: usize = 0x3FFF_FFFF;

/// The metadata program's address. The program is one, so its key is a
/// constant of its crate; `metadata_program_id` returns it.
pub uninterp spec fn metadata_program_key(u: ()) -> Pubkey;

/// The serialized arguments of a create-metadata instruction. They are a
/// function of the record's fields alone; the metadata program's crate fixes
/// the encoding.
pub uninterp spec fn metadata_instruction_data(
    name: Seq<char>,
    symbol: Seq<char>,
    uri: Seq<char>,
    seller_fee_basis_points: u16,
    creators: Seq<Creator>,
    is_mutable: bool,
) -> Seq<u8>;

/// The eight bytes of a 64-bit integer, least significant first, as borsh
/// lays them down.
pub open spec fn u64_le_bytes(v: u64) -> Seq<u8> {
    seq![
        (v & 0xff) as u8,
        ((v >> 8) & 0xff) as u8,
        ((v >> 16) & 0xff) as u8,
        ((v >> 24) & 0xff) as u8,
        ((v >> 32) & 0xff) as u8,
        ((v >> 40) & 0xff) as u8,
        ((v >> 48) & 0xff) as u8,
        ((v >> 56) & 0xff) as u8,
    ]
}

/// The serialized arguments of a create-master-edition instruction: the
/// instruction's discriminator byte, then the print cap as borsh encodes an
/// optional integer — a presence tag, then the value's bytes.
pub open spec fn master_edition_instruction_bytes(max_supply: Option<u64>) -> Seq<u8> {
    match max_supply {
        Option::Some(v) => seq![17u8, 1u8] + u64_le_bytes(v),
        Option::None => seq![17u8, 0u8],
    }
}

/// Relies on `mpl_token_metadata::MPL_TOKEN_METADATA_ID`: the metadata
/// program's fixed address, which both builders write into their
/// instructions.
#[verifier::external_body]
pub fn metadata_program_id() -> (r: Pubkey)
    ensures
        r == metadata_program_key(()),
{
    mpl_token_metadata::ID
}

/// Relies on `mpl_token_metadata::instructions::CreateMetadataAccountV3::instruction`:
/// it addresses the metadata program and lists the step's accounts in a fixed
/// order with fixed flags — metadata writable, mint read-only, mint authority
/// a signer, payer a writable signer, the update authority a signer exactly
/// when the step says so, then the system program and rent, read-only. Its
/// data bytes depend on the record's content and mutability alone. The
/// builder unwraps the serialization of the content, which fails only when a
/// string's bytes or the creator list outgrow a 32-bit length prefix; the
/// bounds required here rule that out.
#[verifier::external_body]
pub(crate) fn build_create_metadata_instruction(step: &CreateMetadataStep) -> (r: Instruction)
    requires
        step.content.name@.len() <= MAX_TEXT_CHARS,
        step.content.symbol@.len() <= MAX_TEXT_CHARS,
        step.content.uri@.len() <= MAX_TEXT_CHARS,
        step.content.creators@.len() <= u32::MAX,
    ensures
        r.program_id == metadata_program_key(()),
        r.accounts@.len() == 7,
        r.accounts@[0].pubkey == step.metadata_account,
        r.accounts@[0].is_writable && !r.accounts@[0].is_signer,
        r.accounts@[1].pubkey == step.mint,
        !r.accounts@[1].is_writable && !r.accounts@[1].is_signer,
        r.accounts@[2].pubkey == step.mint_authority,
        !r.accounts@[2].is_writable && r.accounts@[2].is_signer,
        r.accounts@[3].pubkey == step.payer,
        r.accounts@[3].is_writable && r.accounts@[3].is_signer,
        r.accounts@[4].pubkey == step.update_authority,
        !r.accounts@[4].is_writable,
        r.accounts@[4].is_signer == step.update_authority_is_signer,
        r.accounts@[5].pubkey == step.system_program,
        !r.accounts@[5].is_writable && !r.accounts@[5].is_signer,
        r.accounts@[6].pubkey == step.rent,
        !r.accounts@[6].is_writable && !r.accounts@[6].is_signer,
        r.data@ == metadata_instruction_data(
            step.content.name@,
            step.content.symbol@,
            step.content.uri@,
            step.content.seller_fee_basis_points,
            step.content.creators@,
            step.is_mutable,
        ),
{
    let data = DataV2 {
        name: step.content.name.clone(), symbol: step.content.symbol.clone(),
        uri: step.content.uri.clone(),
        seller_fee_basis_points: step.content.seller_fee_basis_points,
        creators: Some(step.content.creators.clone()), collection: None, uses: None,
    };
    CreateMetadataAccountV3 {
        metadata: step.metadata_account, mint: step.mint,
        mint_authority: step.mint_authority, payer: step.payer,
        update_authority: (step.update_authority, step.update_authority_is_signer),
        system_program: step.system_program, rent: Some(step.rent),
    }.instruction(CreateMetadataAccountV3InstructionArgs {
        data, is_mutable: step.is_mutable, collection_details: None,
    })
}

/// Relies on `mpl_token_metadata::instructions::CreateMasterEditionV3::instruction`:
/// it addresses the metadata program and lists the step's accounts in a fixed
/// order with fixed flags — edition, mint and metadata writable, the update
/// and mint authorities read-only signers, the payer a writable signer, then
/// the token program, system program and rent, read-only. Its data bytes are
/// the discriminator and the borsh-encoded print cap, fixed-size, so the
/// builder's serialization cannot fail.
#[verifier::external_body]
pub(crate) fn build_create_master_edition_instruction(step: &CreateMasterEditionStep) -> (r: Instruction)
    ensures
        r.program_id == metadata_program_key(()),
        r.accounts@.len() == 9,
        r.accounts@[0].pubkey == step.edition_account,
        r.accounts@[0].is_writable && !r.accounts@[0].is_signer,
        r.accounts@[1].pubkey == step.mint,
        r.accounts@[1].is_writable && !r.accounts@[1].is_signer,
        r.accounts@[2].pubkey == step.update_authority,
        !r.accounts@[2].is_writable && r.accounts@[2].is_signer,
        r.accounts@[3].pubkey == step.mint_authority,
        !r.accounts@[3].is_writable && r.accounts@[3].is_signer,
        r.accounts@[4].pubkey == step.payer,
        r.accounts@[4].is_writable && r.accounts@[4].is_signer,
        r.accounts@[5].pubkey == step.metadata_account,
        r.accounts@[5].is_writable && !r.accounts@[5].is_signer,
        r.accounts@[6].pubkey == step.token_program,
        !r.accounts@[6].is_writable && !r.accounts@[6].is_signer,
        r.accounts@[7].pubkey == step.system_program,
        !r.accounts@[7].is_writable && !r.accounts@[7].is_signer,
        r.accounts@[8].pubkey == step.rent,
        !r.accounts@[8].is_writable && !r.accounts@[8].is_signer,
        r.data@ == master_edition_instruction_bytes(step.max_supply),
{
    CreateMasterEditionV3 {
        edition: step.edition_account, mint: step.mint,
        update_authority: step.update_authority, mint_authority: step.mint_authority,
        payer: step.payer, metadata: step.metadata_account,
        token_program: step.token_program, system_program: step.system_program,
        rent: Some(step.rent),
    }.instruction(CreateMasterEditionV3InstructionArgs { max_supply: step.max_supply })
}

} // verus!
