//! Local first creation of an asset: allocate its cross-chain identity,
//! create its origin record, and advance the configuration counters.  The
//! display metadata and the token itself are created by the external
//! token/metadata service around this step.

use vstd::prelude::*;

use crate::bytes_util::copy_bytes;
use crate::state::NftOrigin;
use crate::state::ProgramState;
use crate::state::SOLANA_CHAIN_ID;
use crate::token_id::generate_token_id;
use crate::token_id::token_id_bytes;

verus! {

/// Registers a freshly minted asset: derives its token identity from the
/// mint key, the block height and the sequence counter, creates the origin
/// record claiming the live copy for this chain with a move count of one,
/// and advances the sequence and mint counters.
pub fn mint_nft(
    program_state: &mut ProgramState,
    mint: &Vec<u8>,
    slot: u64,
    now: u64,
    bump: u8,
) -> (r: NftOrigin)
    requires
        mint@.len() == 32,
        old(program_state).next_token_id < u64::MAX,
        old(program_state).total_minted < u64::MAX,
    ensures
        r.token_id@ == token_id_bytes(mint@, slot, old(program_state).next_token_id),
        r.original_mint@ == mint@,
        r.origin_chain_id == SOLANA_CHAIN_ID,
        r.current_chain_id == SOLANA_CHAIN_ID,
        r.transfer_count == 1,
        r.block_number == slot,
        r.last_transfer_timestamp == now,
        r.bump == bump,
        r.wf(),
        final(program_state).next_token_id == old(program_state).next_token_id + 1,
        final(program_state).total_minted == old(program_state).total_minted + 1,
        final(program_state).authority@ == old(program_state).authority@,
        final(program_state).gateway@ == old(program_state).gateway@,
        final(program_state).total_transfers == old(program_state).total_transfers,
        final(program_state).total_receives == old(program_state).total_receives,
        final(program_state).version == old(program_state).version,
        final(program_state).bump == old(program_state).bump,
{
    let token_id = generate_token_id(mint, program_state, slot);
    let nft_origin = NftOrigin {
        original_mint: copy_bytes(mint),
        token_id: token_id,
        origin_chain_id: SOLANA_CHAIN_ID,
        block_number: slot,
        current_chain_id: SOLANA_CHAIN_ID,
        transfer_count: 1,
        last_transfer_timestamp: now,
        bump: bump,
    };
    program_state.next_token_id = program_state.next_token_id + 1;
    program_state.total_minted = program_state.total_minted + 1;
    nft_origin
}

} // verus!
