//! Core logic of a cross-chain non-fungible asset program: token-identity
//! derivation, the origin/location ledger, the outbound transfer state
//! machine, the cross-chain message codec, gateway-call authentication, and
//! revert recovery.  Ledger account handling and relay submission live
//! outside this crate; every function here works on plain values.

pub mod bytes_util;
pub mod codec;
pub mod errors;
pub mod initialize;
pub mod mint_nft;
pub mod mint_nft_simple;
pub mod on_call;
pub mod on_revert;
pub mod origin_ledger;
pub mod outside;
pub mod receive_cross_chain;
pub mod state;
pub mod text;
pub mod token_id;
pub mod transfer_cross_chain;
pub mod trigger_deposit;
pub mod update_gateway;
