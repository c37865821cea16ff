//! Recovery from relay-reported failures: authenticate the caller,
//! classify the revert payload, restore the transfer record and account for
//! the callback.  The asset itself is re-materialized to its original
//! sender by the external token service around this step.

use vstd::prelude::*;

use crate::bytes_util::bytes_eq;
use crate::bytes_util::contains_bytes;
use crate::bytes_util::contains_seq;
use crate::bytes_util::copy_bytes;
use crate::bytes_util::zero_bytes;
use crate::bytes_util::zero_seq;
use crate::codec::decode;
use crate::codec::decode_spec;
use crate::errors::UniversalNftError;
use crate::outside::check_utf8;
use crate::outside::utf8_ok;
use crate::state::CrossChainMessageType;
use crate::state::CrossChainTransfer;
use crate::state::NftOrigin;
use crate::state::ProgramState;
use crate::state::SOLANA_CHAIN_ID;
use crate::state::RevertInfo;
use crate::state::RevertInfoView;
use crate::state::TransferStatus;
use crate::state::is_terminal;
use crate::state::transition_allowed;
use crate::text::revert_marker;
use crate::text::revert_marker_vec;
use crate::text::structured_reason;
use crate::text::structured_reason_vec;
use crate::text::unknown_reason;
use crate::text::unknown_reason_vec;
use crate::token_id::fallback_token_id;
use crate::token_id::generate_token_id_from_revert_data;

verus! {

/// Append-only audit record of a handled revert, for off-chain
/// reconciliation.
pub struct CrossChainRevertEvent {
    pub token_id: Vec<u8>,
    pub operation_type: CrossChainMessageType,
    pub reason: Vec<u8>,
    pub original_sender: Vec<u8>,
    pub amount: u64,
    pub timestamp: u64,
}

/// How a revert payload is classified: an empty payload gets a placeholder
/// reason, a structured encoding carries its own identity and kind, an
/// unstructured UTF-8 payload is taken as the reason text with a
/// synthesized identity, and anything else is rejected.
pub open spec fn revert_info_expected(data: Seq<u8>, now: u64, slot: u64) -> Option<
    RevertInfoView,
> {
    if data.len() == 0 {
        Some(
            RevertInfoView {
                reason: unknown_reason(),
                token_id: zero_seq(32),
                operation_type: CrossChainMessageType::Transfer,
                original_sender: zero_seq(32),
                timestamp: now,
            },
        )
    } else {
        match decode_spec(data) {
            Some(m) => Some(
                RevertInfoView {
                    reason: structured_reason(),
                    token_id: m.token_id,
                    operation_type: m.message_type,
                    original_sender: zero_seq(32),
                    timestamp: m.timestamp,
                },
            ),
            None => if utf8_ok(data) {
                Some(
                    RevertInfoView {
                        reason: data,
                        token_id: fallback_token_id(data, now, slot),
                        operation_type: CrossChainMessageType::Transfer,
                        original_sender: zero_seq(32),
                        timestamp: now,
                    },
                )
            } else {
                None
            },
        }
    }
}

/// Classifies a revert payload per [`revert_info_expected`].
pub fn parse_revert_data(data: &Vec<u8>, now: u64, slot: u64) -> (r: Result<
    RevertInfo,
    UniversalNftError,
>)
    ensures
        match r {
            Ok(info) => revert_info_expected(data@, now, slot) == Some(info@) && info.token_id@.len()
                == 32 && info.original_sender@.len() == 32,
            Err(e) => revert_info_expected(data@, now, slot) is None && e
                == UniversalNftError::InvalidDataFormat,
        },
{
    if data.len() == 0 {
        return Ok(
            RevertInfo {
                reason: unknown_reason_vec(),
                token_id: zero_bytes(32),
                operation_type: CrossChainMessageType::Transfer,
                original_sender: zero_bytes(32),
                timestamp: now,
            },
        );
    }
    match decode(data) {
        Ok(m) => Ok(
            RevertInfo {
                reason: structured_reason_vec(),
                token_id: m.token_id,
                operation_type: m.message_type,
                original_sender: zero_bytes(32),
                timestamp: m.timestamp,
            },
        ),
        Err(_) => {
            if check_utf8(data) {
                Ok(
                    RevertInfo {
                        reason: copy_bytes(data),
                        token_id: generate_token_id_from_revert_data(data, now, slot),
                        operation_type: CrossChainMessageType::Transfer,
                        original_sender: zero_bytes(32),
                        timestamp: now,
                    },
                )
            } else {
                Err(UniversalNftError::InvalidDataFormat)
            }
        },
    }
}

/// Restores local state after a failed outbound transfer: the open
/// transfer record is marked failed with the relay-supplied reason, the
/// origin ledger again points the live copy at this chain (undoing the
/// departure, so the asset can be re-materialized here), and the callback
/// is accounted for.  A record that is already terminal is an anomaly: the
/// call fails rather than fabricate an attempt.
pub fn handle_transfer_revert(
    program_state: &mut ProgramState,
    transfer_record: CrossChainTransfer,
    nft_origin: NftOrigin,
    revert_info: &RevertInfo,
    amount: u64,
    now: u64,
) -> (r: Result<(CrossChainTransfer, NftOrigin, CrossChainRevertEvent), UniversalNftError>)
    requires
        old(program_state).total_receives < u64::MAX,
        nft_origin.token_id@ == transfer_record.token_id@,
    ensures
        r is Ok <==> !is_terminal(transfer_record.status),
        match r {
            Ok(p) => {
                &&& p.0.status == TransferStatus::Failed
                &&& transition_allowed(transfer_record.status, p.0.status)
                &&& p.0.same_identity(&transfer_record)
                &&& p.0.completed_at == Some(now)
                &&& (p.0.error_message matches Some(m) && m@ == revert_info.reason@)
                &&& p.1.current_chain_id == SOLANA_CHAIN_ID
                &&& p.1.last_transfer_timestamp == now
                &&& p.1.token_id@ == nft_origin.token_id@
                &&& p.1.origin_chain_id == nft_origin.origin_chain_id
                &&& p.1.original_mint@ == nft_origin.original_mint@
                &&& p.1.transfer_count == nft_origin.transfer_count
                &&& p.1.block_number == nft_origin.block_number
                &&& p.1.bump == nft_origin.bump
                &&& final(program_state).total_receives == old(program_state).total_receives + 1
                &&& final(program_state).authority@ == old(program_state).authority@
                &&& final(program_state).gateway@ == old(program_state).gateway@
                &&& final(program_state).next_token_id == old(program_state).next_token_id
                &&& final(program_state).total_minted == old(program_state).total_minted
                &&& final(program_state).total_transfers == old(program_state).total_transfers
                &&& p.2.token_id@ == revert_info.token_id@
                &&& p.2.operation_type == revert_info.operation_type
                &&& p.2.reason@ == revert_info.reason@
                &&& p.2.original_sender@ == revert_info.original_sender@
                &&& p.2.amount == amount
                &&& p.2.timestamp == revert_info.timestamp
            },
            Err(e) => e == UniversalNftError::NftNotFound && *final(program_state) == *old(
                program_state,
            ),
        },
{
    let open = match transfer_record.status {
        TransferStatus::Pending => true,
        TransferStatus::InProgress => true,
        _ => false,
    };
    if !open {
        return Err(UniversalNftError::NftNotFound);
    }
    let mut record = transfer_record;
    record.mark_failed(copy_bytes(&revert_info.reason), now);
    let mut origin = nft_origin;
    origin.current_chain_id = SOLANA_CHAIN_ID;
    origin.last_transfer_timestamp = now;
    program_state.total_receives = program_state.total_receives + 1;
    let event = CrossChainRevertEvent {
        token_id: copy_bytes(&revert_info.token_id),
        operation_type: revert_info.operation_type,
        reason: copy_bytes(&revert_info.reason),
        original_sender: copy_bytes(&revert_info.original_sender),
        amount: amount,
        timestamp: revert_info.timestamp,
    };
    Ok((record, origin, event))
}

/// Records a reverted first-time creation: any partially created local
/// state is discarded by the surrounding code, the failure is accounted
/// for, and no success counter moves.
pub fn handle_mint_revert(
    program_state: &mut ProgramState,
    revert_info: &RevertInfo,
    amount: u64,
) -> (r: CrossChainRevertEvent)
    requires
        old(program_state).total_receives < u64::MAX,
    ensures
        final(program_state).total_receives == old(program_state).total_receives + 1,
        final(program_state).authority@ == old(program_state).authority@,
        final(program_state).gateway@ == old(program_state).gateway@,
        final(program_state).next_token_id == old(program_state).next_token_id,
        final(program_state).total_minted == old(program_state).total_minted,
        final(program_state).total_transfers == old(program_state).total_transfers,
        r.token_id@ == revert_info.token_id@,
        r.operation_type == revert_info.operation_type,
        r.reason@ == revert_info.reason@,
        r.original_sender@ == revert_info.original_sender@,
        r.amount == amount,
        r.timestamp == revert_info.timestamp,
{
    program_state.total_receives = program_state.total_receives + 1;
    CrossChainRevertEvent {
        token_id: copy_bytes(&revert_info.token_id),
        operation_type: revert_info.operation_type,
        reason: copy_bytes(&revert_info.reason),
        original_sender: copy_bytes(&revert_info.original_sender),
        amount: amount,
        timestamp: revert_info.timestamp,
    }
}

/// Everything a handled revert callback produced: the classification, the
/// updated records where the revert was for a transfer, and the audit
/// record.
pub struct RevertOutcome {
    /// The classified payload.
    pub revert_info: RevertInfo,
    /// The transfer record, marked failed, when the revert was for a
    /// transfer.
    pub transfer_record: Option<CrossChainTransfer>,
    /// The origin record, restored to this chain, when the revert was for
    /// a transfer.
    pub nft_origin: Option<NftOrigin>,
    /// Append-only audit record.
    pub event: CrossChainRevertEvent,
}

/// Entry point for gateway-delivered revert callbacks.  The caller must be
/// exactly the trusted gateway recorded in the configuration.  The payload
/// is classified; only failed transfers and failed creations are
/// recoverable, a reason carrying the explicit halt marker stops the call,
/// and a transfer revert without an open matching record and its origin
/// record fails rather than fabricate one.  For a failed transfer the
/// record is marked failed and the origin ledger again points at this
/// chain, ready for the asset's re-materialization to the original sender.
/// On any error nothing changes.
pub fn on_revert(
    program_state: &mut ProgramState,
    caller: &Vec<u8>,
    amount: u64,
    sender: &Vec<u8>,
    data: &Vec<u8>,
    transfer_record: Option<CrossChainTransfer>,
    nft_origin: Option<NftOrigin>,
    now: u64,
    slot: u64,
) -> (r: Result<RevertOutcome, UniversalNftError>)
    requires
        old(program_state).wf(),
        caller@.len() == 32,
        sender@.len() == 32,
        old(program_state).total_receives < u64::MAX,
        transfer_record matches Some(tr) ==> (nft_origin matches Some(o) ==> o.token_id@
            == tr.token_id@),
    ensures
        caller@ != old(program_state).gateway@ ==> (r matches Err(e) && e
            == UniversalNftError::InvalidGatewayCaller),
        r is Err ==> *final(program_state) == *old(program_state),
        r is Ok <==> (caller@ == old(program_state).gateway@ && (revert_info_expected(
            data@,
            now,
            slot,
        ) matches Some(iv) && (iv.operation_type == CrossChainMessageType::Transfer
            || iv.operation_type == CrossChainMessageType::Mint) && !contains_seq(
            iv.reason,
            revert_marker(),
        ) && (iv.operation_type == CrossChainMessageType::Transfer ==> ((transfer_record
            matches Some(tr) && !is_terminal(tr.status)) && nft_origin is Some)))),
        match r {
            Ok(p) => {
                &&& revert_info_expected(data@, now, slot) == Some(p.revert_info@)
                &&& final(program_state).total_receives == old(program_state).total_receives + 1
                &&& final(program_state).authority@ == old(program_state).authority@
                &&& final(program_state).gateway@ == old(program_state).gateway@
                &&& final(program_state).next_token_id == old(program_state).next_token_id
                &&& final(program_state).total_minted == old(program_state).total_minted
                &&& final(program_state).total_transfers == old(program_state).total_transfers
                &&& final(program_state).wf()
                &&& (p.revert_info.operation_type == CrossChainMessageType::Transfer ==> (
                (transfer_record matches Some(tr) && (p.transfer_record matches Some(rec)
                    && rec.status == TransferStatus::Failed && transition_allowed(
                    tr.status,
                    rec.status,
                ) && rec.same_identity(&tr) && rec.completed_at == Some(now) && (rec.error_message
                    matches Some(m) && m@ == p.revert_info.reason@))) && (nft_origin matches Some(
                    og,
                ) && (p.nft_origin matches Some(og2) && og2.current_chain_id == SOLANA_CHAIN_ID
                    && og2.last_transfer_timestamp == now && og2.token_id@ == og.token_id@
                    && og2.origin_chain_id == og.origin_chain_id && og2.original_mint@
                    == og.original_mint@ && og2.transfer_count == og.transfer_count
                    && og2.block_number == og.block_number && og2.bump == og.bump))))
                &&& (p.revert_info.operation_type == CrossChainMessageType::Mint ==> (
                p.transfer_record == transfer_record && p.nft_origin == nft_origin))
                &&& p.event.token_id@ == p.revert_info.token_id@
                &&& p.event.operation_type == p.revert_info.operation_type
                &&& p.event.reason@ == p.revert_info.reason@
                &&& p.event.original_sender@ == p.revert_info.original_sender@
                &&& p.event.amount == amount
                &&& p.event.timestamp == p.revert_info.timestamp
            },
            Err(e) => if caller@ != old(program_state).gateway@ {
                e == UniversalNftError::InvalidGatewayCaller
            } else if revert_info_expected(data@, now, slot) is None {
                e == UniversalNftError::InvalidDataFormat
            } else if revert_info_expected(data@, now, slot) matches Some(iv)
                && iv.operation_type != CrossChainMessageType::Transfer && iv.operation_type
                != CrossChainMessageType::Mint {
                e == UniversalNftError::InvalidCrossChainMessage
            } else if revert_info_expected(data@, now, slot) matches Some(iv) && contains_seq(
                iv.reason,
                revert_marker(),
            ) {
                e == UniversalNftError::RevertMessage
            } else {
                e == UniversalNftError::NftNotFound
            },
        },
{
    if !bytes_eq(caller, &program_state.gateway) {
        return Err(UniversalNftError::InvalidGatewayCaller);
    }
    let revert_info = match parse_revert_data(data, now, slot) {
        Ok(info) => info,
        Err(e) => {
            return Err(e);
        },
    };
    let supported = match revert_info.operation_type {
        CrossChainMessageType::Transfer => true,
        CrossChainMessageType::Mint => true,
        _ => false,
    };
    if !supported {
        return Err(UniversalNftError::InvalidCrossChainMessage);
    }
    let marker = revert_marker_vec();
    if contains_bytes(&revert_info.reason, &marker) {
        return Err(UniversalNftError::RevertMessage);
    }
    match revert_info.operation_type {
        CrossChainMessageType::Transfer => {
            match (transfer_record, nft_origin) {
                (Some(tr), Some(og)) => {
                    match handle_transfer_revert(program_state, tr, og, &revert_info, amount, now) {
                        Ok((rec, origin, event)) => Ok(
                            RevertOutcome {
                                revert_info: revert_info,
                                transfer_record: Some(rec),
                                nft_origin: Some(origin),
                                event: event,
                            },
                        ),
                        Err(e) => Err(e),
                    }
                },
                _ => Err(UniversalNftError::NftNotFound),
            }
        },
        _ => {
            let event = handle_mint_revert(program_state, &revert_info, amount);
            Ok(
                RevertOutcome {
                    revert_info: revert_info,
                    transfer_record: transfer_record,
                    nft_origin: nft_origin,
                    event: event,
                },
            )
        },
    }
}

} // verus!
