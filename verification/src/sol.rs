//! Declarations of the on-chain types that the plans are made of.
//!
//! The token and metadata programs identify every account by a 32-byte public
//! key, and an instruction carries the keys and the flags of the accounts it
//! touches together with its serialized arguments. A `Pubkey` stays opaque
//! here: the planning logic routes keys, it never reads their bytes. An
//! `Instruction` and its `AccountMeta` entries have public fields, so
//! contracts can pin down exactly which key lands in which slot.

use vstd::prelude::*;

verus! {

/// Declares `solana_program::pubkey::Pubkey`, an opaque 32-byte account key.
#[verifier::external_type_specification]
#[verifier::external_body]
pub struct ExPubkey(solana_program::pubkey::Pubkey);

/// Declares `solana_program::instruction::AccountMeta`: one account slot of an
/// instruction, with its key and its signer and writability flags.
#[verifier::external_type_specification]
pub struct ExAccountMeta(solana_program::instruction::AccountMeta);

/// Declares `solana_program::instruction::Instruction`: the program to call,
/// the account slots, and the serialized argument bytes.
#[verifier::external_type_specification]
pub struct ExInstruction(solana_program::instruction::Instruction);

/// Declares `mpl_token_metadata::types::Creator`: one royalty recipient in a
/// metadata record — an address, whether that address has signed off on its
/// entry, and its share of royalties in percent.
#[verifier::external_type_specification]
pub struct ExCreator(mpl_token_metadata::types::Creator);

} // verus!
