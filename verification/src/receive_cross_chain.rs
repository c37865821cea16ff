//! Inbound receipt of an asset delivered by the gateway: authentication of
//! the caller, input validation, the origin-ledger arrival, and the
//! configuration counters.  The local token and its display metadata are
//! re-created by the external token/metadata service around this step.

use vstd::prelude::*;

use crate::bytes_util::bytes_eq;
use crate::bytes_util::copy_bytes;
use crate::bytes_util::is_zero_bytes;
use crate::errors::UniversalNftError;
use crate::origin_ledger::record_arrival;
use crate::state::InboundReceipt;
use crate::state::NftCreator;
use crate::state::NftOrigin;
use crate::state::ProgramState;
use crate::state::SOLANA_CHAIN_ID;
use crate::state::all_zero;
use crate::state::opt_creators_view;
use crate::state::shares_ok;
use crate::state::validate_creator_shares;

verus! {

/// Append-only audit record of an inbound receipt.
pub struct CrossChainReceiveEvent {
    pub token_id: Vec<u8>,
    pub mint: Vec<u8>,
    pub recipient: Vec<u8>,
    pub is_returning: bool,
    pub source_chain_id: u64,
    pub transfer_count: u64,
    pub timestamp: u64,
}

/// The inputs an inbound receipt accepts: a non-empty name and symbol, a
/// nonzero token identity, and creator shares summing to at most 100.
pub open spec fn receive_inputs_ok(
    name: Seq<u8>,
    symbol: Seq<u8>,
    token_id: Seq<u8>,
    creators: Option<Seq<crate::state::CreatorView>>,
) -> bool {
    &&& name.len() > 0
    &&& symbol.len() > 0
    &&& !all_zero(token_id)
    &&& shares_ok(creators)
}

/// Processes a gateway-delivered asset.  The caller must be exactly the
/// trusted gateway recorded in the configuration; any other caller is
/// rejected before anything is read or written.  Delivery is once-only:
/// the message is keyed by `(token_id, source_chain_id, message_timestamp)`
/// and a receipt under that key is created on success, so a replay of the
/// identical message (the receipt found and passed back in) is refused and
/// nothing is applied twice.  On success the origin ledger records the
/// arrival (create on first receipt, return otherwise), this chain claims
/// the live copy bound to the fresh mint, and the mint and receive
/// counters advance.  On any error nothing changes.
pub fn receive_cross_chain(
    program_state: &mut ProgramState,
    caller: &Vec<u8>,
    existing_origin: Option<NftOrigin>,
    existing_receipt: Option<InboundReceipt>,
    token_id: &Vec<u8>,
    name: &Vec<u8>,
    symbol: &Vec<u8>,
    creators: &Option<Vec<NftCreator>>,
    mint: &Vec<u8>,
    recipient: &Vec<u8>,
    source_chain_id: u64,
    message_timestamp: u64,
    slot: u64,
    now: u64,
    bump: u8,
    receipt_bump: u8,
) -> (r: Result<(NftOrigin, InboundReceipt, CrossChainReceiveEvent), UniversalNftError>)
    requires
        old(program_state).wf(),
        caller@.len() == 32,
        token_id@.len() == 32,
        mint@.len() == 32,
        recipient@.len() == 32,
        existing_origin matches Some(o) ==> o.token_id@ == token_id@ && o.transfer_count
            < u64::MAX,
        existing_receipt matches Some(rc) ==> rc.token_id@ == token_id@ && rc.source_chain_id
            == source_chain_id && rc.message_timestamp == message_timestamp,
        old(program_state).total_minted < u64::MAX,
        old(program_state).total_receives < u64::MAX,
    ensures
        caller@ != old(program_state).gateway@ ==> (r matches Err(e) && e
            == UniversalNftError::InvalidGatewayCaller),
        r is Err ==> *final(program_state) == *old(program_state),
        existing_receipt is Some ==> r is Err,
        r is Ok <==> (caller@ == old(program_state).gateway@ && receive_inputs_ok(
            name@,
            symbol@,
            token_id@,
            opt_creators_view(*creators),
        ) && existing_receipt is None),
        match r {
            Ok(p) => {
                &&& p.0.current_chain_id == SOLANA_CHAIN_ID
                &&& p.0.token_id@ == token_id@
                &&& p.0.original_mint@ == mint@
                &&& p.0.last_transfer_timestamp == now
                &&& p.0.wf()
                &&& match existing_origin {
                    None => p.0.origin_chain_id == source_chain_id && p.0.transfer_count == 1
                        && p.0.block_number == slot,
                    Some(o) => p.0.origin_chain_id == o.origin_chain_id && p.0.transfer_count
                        == o.transfer_count + 1 && p.0.block_number == o.block_number,
                }
                &&& p.1.token_id@ == token_id@
                &&& p.1.source_chain_id == source_chain_id
                &&& p.1.message_timestamp == message_timestamp
                &&& p.1.bump == receipt_bump
                &&& p.1.wf()
                &&& final(program_state).total_minted == old(program_state).total_minted + 1
                &&& final(program_state).total_receives == old(program_state).total_receives + 1
                &&& final(program_state).authority@ == old(program_state).authority@
                &&& final(program_state).gateway@ == old(program_state).gateway@
                &&& final(program_state).next_token_id == old(program_state).next_token_id
                &&& final(program_state).total_transfers == old(program_state).total_transfers
                &&& final(program_state).wf()
                &&& p.2.token_id@ == token_id@
                &&& p.2.mint@ == mint@
                &&& p.2.recipient@ == recipient@
                &&& p.2.is_returning == existing_origin is Some
                &&& p.2.source_chain_id == p.0.origin_chain_id
                &&& p.2.transfer_count == p.0.transfer_count
                &&& p.2.timestamp == now
            },
            Err(e) => if caller@ != old(program_state).gateway@ {
                e == UniversalNftError::InvalidGatewayCaller
            } else if name@.len() == 0 || symbol@.len() == 0 {
                e == UniversalNftError::InvalidInstructionData
            } else if all_zero(token_id@) {
                e == UniversalNftError::InvalidTokenId
            } else {
                e == UniversalNftError::InvalidInstructionData
            },
        },
{
    if !bytes_eq(caller, &program_state.gateway) {
        return Err(UniversalNftError::InvalidGatewayCaller);
    }
    if name.len() == 0 {
        return Err(UniversalNftError::InvalidInstructionData);
    }
    if symbol.len() == 0 {
        return Err(UniversalNftError::InvalidInstructionData);
    }
    if is_zero_bytes(token_id) {
        return Err(UniversalNftError::InvalidTokenId);
    }
    if !validate_creator_shares(creators) {
        return Err(UniversalNftError::InvalidInstructionData);
    }
    if existing_receipt.is_some() {
        // The identical message was already applied: refuse the replay.
        return Err(UniversalNftError::InvalidInstructionData);
    }
    let is_returning = existing_origin.is_some();
    let nft_origin = record_arrival(existing_origin, token_id, source_chain_id, mint, slot, now, bump);
    let receipt = InboundReceipt {
        token_id: copy_bytes(token_id),
        source_chain_id: source_chain_id,
        message_timestamp: message_timestamp,
        bump: receipt_bump,
    };
    program_state.total_minted = program_state.total_minted + 1;
    program_state.total_receives = program_state.total_receives + 1;
    let event = CrossChainReceiveEvent {
        token_id: copy_bytes(token_id),
        mint: copy_bytes(mint),
        recipient: copy_bytes(recipient),
        is_returning: is_returning,
        source_chain_id: nft_origin.origin_chain_id,
        transfer_count: nft_origin.transfer_count,
        timestamp: now,
    };
    Ok((nft_origin, receipt, event))
}

} // verus!
