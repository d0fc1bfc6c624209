//! Plans the minting of a non-fungible token.
//!
//! A mint goes through three steps, in this order: mint one token to the
//! holder's token account, attach a metadata record to the mint, and mark the
//! mint as a master edition. This crate computes, and proves correct, every
//! argument of those steps: the creator list, the metadata fields, and the two
//! instructions for the metadata program. Submitting the steps on chain is
//! left to the surrounding program.

#![allow(unused_imports)]

pub mod creators;
pub mod ix;
pub mod mint;
pub mod plan;
pub mod sol;
