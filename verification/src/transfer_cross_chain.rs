//! Outbound transfer: input validation, the transfer record, the wire
//! message, the revert options and the gateway call envelope.  The actual
//! destruction of the local copy and the relay submission happen outside;
//! [`apply_burn_result`] consumes the outcome of the destruction and either
//! advances the transfer and the origin ledger or marks the attempt failed.

use vstd::prelude::*;
use vstd::bytes::spec_u32_to_le_bytes;
use vstd::bytes::spec_u64_to_le_bytes;

use crate::bytes_util::copy_bytes;
use crate::bytes_util::is_zero_bytes;
use crate::bytes_util::solana_to_evm_address;
use crate::bytes_util::u64_to_dec_bytes;
use crate::bytes_util::dec_bytes;
use crate::codec::bool_byte;
use crate::codec::push_byte;
use crate::codec::push_bytes;
use crate::codec::push_u32_le;
use crate::codec::push_u64_le;
use crate::errors::UniversalNftError;
use crate::origin_ledger::record_departure;
use crate::outside::base58_encode;
use crate::outside::base58_of;
use crate::outside::hex_bytes;
use crate::outside::hex_encode;
use crate::state::CollectionView;
use crate::state::CreatorView;
use crate::state::CrossChainMessage;
use crate::state::CrossChainMessageType;
use crate::state::CrossChainTransfer;
use crate::state::MessageView;
use crate::state::MetadataView;
use crate::state::NftCollection;
use crate::state::NftCreator;
use crate::state::NftMetadata;
use crate::state::NftOrigin;
use crate::state::ProgramState;
use crate::state::RevertOptions;
use crate::state::RevertOptionsView;
use crate::state::SOLANA_CHAIN_ID;
use crate::state::TransferStatus;
use crate::state::all_zero;
use crate::state::metadata_wf;
use crate::state::msg_wf;
use crate::state::opt_revert_options_view;
use crate::state::transition_allowed;
use crate::text::burn_failed_reason;
use crate::text::burn_failed_reason_vec;
use crate::text::name_prefix;
use crate::text::name_prefix_vec;
use crate::text::owner_sep;
use crate::text::owner_sep_vec;
use crate::text::revert_tag;
use crate::text::revert_tag_vec;
use crate::text::symbol_unft;
use crate::text::symbol_unft_vec;
use crate::text::ts_sep;
use crate::text::ts_sep_vec;
use crate::text::uri_prefix;
use crate::text::uri_prefix_vec;
use crate::text::uri_suffix;
use crate::text::uri_suffix_vec;

verus! {

/// Append-only audit record of an initiated outbound transfer.
pub struct CrossChainTransferEvent {
    pub token_id: Vec<u8>,
    pub from_chain: u64,
    pub to_chain: u64,
    pub sender: Vec<u8>,
    pub recipient: Vec<u8>,
    pub transfer_count: u64,
    pub timestamp: u64,
}

/// The display metadata carried with an outbound transfer: a name tagged
/// with the first 8 hexadecimal digits of the identity, a metadata URI
/// holding all 64, a 2.5% royalty, and the current mint as sole verified
/// creator and collection reference.
pub open spec fn enhanced_metadata_view(token_id: Seq<u8>, mint: Seq<u8>) -> MetadataView {
    MetadataView {
        name: name_prefix() + hex_bytes(token_id).subrange(0, 8),
        symbol: symbol_unft(),
        uri: uri_prefix() + hex_bytes(token_id) + uri_suffix(),
        seller_fee_basis_points: 250u16,
        creators: Some(seq![CreatorView { address: mint, verified: true, share: 100u8 }]),
        collection: Some(CollectionView { address: mint, verified: true }),
    }
}

/// Builds [`enhanced_metadata_view`], calling the hexadecimal encoder for
/// the identity digits.
pub fn create_enhanced_transfer_metadata(token_id: &Vec<u8>, mint: &Vec<u8>) -> (r: NftMetadata)
    requires
        token_id@.len() == 32,
        mint@.len() == 32,
    ensures
        r@ == enhanced_metadata_view(token_id@, mint@),
        metadata_wf(r@),
{
    let hexid = hex_encode(token_id);
    let mut name = name_prefix_vec();
    let mut i: usize = 0;
    proof {
        assert(name@ =~= name_prefix() + hex_bytes(token_id@).subrange(0, 0));
    }
    while i < 8
        invariant
            i <= 8,
            hexid@ == hex_bytes(token_id@),
            hexid@.len() == 64,
            name@ == name_prefix() + hex_bytes(token_id@).subrange(0, i as int),
        decreases 8 - i,
    {
        name.push(hexid[i]);
        proof {
            assert(name@ =~= name_prefix() + hex_bytes(token_id@).subrange(0, i + 1));
        }
        i = i + 1;
    }
    let symbol = symbol_unft_vec();
    let mut uri = uri_prefix_vec();
    push_bytes(&mut uri, &hexid);
    let suffix = uri_suffix_vec();
    push_bytes(&mut uri, &suffix);
    let mut creators_vec: Vec<NftCreator> = Vec::new();
    creators_vec.push(NftCreator { address: copy_bytes(mint), verified: true, share: 100 });
    let collection = NftCollection { address: copy_bytes(mint), verified: true };
    let md = NftMetadata {
        name: name,
        symbol: symbol,
        uri: uri,
        seller_fee_basis_points: 250,
        creators: Some(creators_vec),
        collection: Some(collection),
    };
    proof {
        assert(md@.creators matches Some(cs) && cs =~= Some(
            seq![CreatorView { address: mint@, verified: true, share: 100u8 }],
        ).unwrap());
        assert(md@ =~= enhanced_metadata_view(token_id@, mint@));
    }
    md
}

/// The payload handed back to the revert handler: a tag, the identity in
/// hexadecimal, the owner in the platform's base58 text form, and the
/// decimal timestamp.
pub open spec fn revert_message_bytes(token_id: Seq<u8>, owner: Seq<u8>, now: u64) -> Seq<u8> {
    revert_tag() + hex_bytes(token_id) + owner_sep() + base58_of(owner) + ts_sep() + dec_bytes(
        now as nat,
    )
}

/// Builds [`revert_message_bytes`].
pub fn create_revert_message(token_id: &Vec<u8>, owner: &Vec<u8>, now: u64) -> (r: Vec<u8>)
    requires
        token_id@.len() == 32,
        owner@.len() == 32,
    ensures
        r@ == revert_message_bytes(token_id@, owner@, now),
{
    let mut msg = revert_tag_vec();
    let hex_token = hex_encode(token_id);
    push_bytes(&mut msg, &hex_token);
    let sep1 = owner_sep_vec();
    push_bytes(&mut msg, &sep1);
    let owner_text = base58_encode(owner);
    push_bytes(&mut msg, &owner_text);
    let sep2 = ts_sep_vec();
    push_bytes(&mut msg, &sep2);
    let ts = u64_to_dec_bytes(now);
    push_bytes(&mut msg, &ts);
    msg
}

/// One account reference of a gateway call: address, signer flag,
/// writable flag.
pub struct AccountMetaInfo {
    pub pubkey: Vec<u8>,
    pub is_signer: bool,
    pub is_writable: bool,
}

/// A ready gateway call: the gateway program to invoke, the accounts it
/// touches, and the serialized call data.
pub struct GatewayInstruction {
    pub program_id: Vec<u8>,
    pub accounts: Vec<AccountMetaInfo>,
    pub data: Vec<u8>,
}

/// The gateway's deposit-and-call discriminator.
pub open spec fn deposit_and_call_discriminator() -> Seq<u8> {
    seq![0x66u8, 0x87u8, 0x6au8, 0x4du8, 0x1cu8, 0x9au8, 0x8bu8, 0x13u8]
}

/// Serialization of the optional revert options inside the call data.
pub open spec fn revert_options_bytes(o: Option<RevertOptionsView>) -> Seq<u8> {
    match o {
        None => seq![0u8],
        Some(r) => seq![1u8] + r.revert_address + r.abort_address + seq![
            bool_byte(r.call_on_revert),
        ] + spec_u32_to_le_bytes(r.revert_message.len() as u32) + r.revert_message
            + spec_u64_to_le_bytes(r.on_revert_gas_limit),
    }
}

/// The gateway call data: discriminator, amount, receiver, the
/// length-prefixed message, and the revert options.
pub open spec fn gateway_call_data(
    amount: u64,
    receiver: Seq<u8>,
    message: Seq<u8>,
    opts: Option<RevertOptionsView>,
) -> Seq<u8> {
    deposit_and_call_discriminator() + spec_u64_to_le_bytes(amount) + receiver
        + spec_u32_to_le_bytes(message.len() as u32) + message + revert_options_bytes(opts)
}

/// The all-zero local address (the system program).
fn zero_address() -> (r: Vec<u8>)
    ensures
        r@.len() == 32,
        all_zero(r@),
{
    let mut out: Vec<u8> = Vec::new();
    let mut i: usize = 0;
    while i < 32
        invariant
            i <= 32,
            out@.len() == i,
            forall|j: int| 0 <= j < i ==> out@[j] == 0u8,
        decreases 32 - i,
    {
        out.push(0u8);
        i = i + 1;
    }
    out
}

/// Builds the gateway deposit-and-call envelope: the call data in the
/// gateway's wire format, and the three accounts the call touches (the
/// gateway's derived account, the paying signer, and the system program).
pub fn create_gateway_deposit_and_call_instruction(
    gateway_program: &Vec<u8>,
    gateway_pda: &Vec<u8>,
    payer: &Vec<u8>,
    amount: u64,
    receiver: &Vec<u8>,
    message: Vec<u8>,
    revert_options: Option<RevertOptions>,
) -> (r: GatewayInstruction)
    requires
        gateway_program@.len() == 32,
        gateway_pda@.len() == 32,
        payer@.len() == 32,
        receiver@.len() == 32,
        message@.len() <= 0xffff_ffff,
        revert_options matches Some(o) ==> o.revert_message@.len() <= 0xffff_ffff,
    ensures
        r.program_id@ == gateway_program@,
        r.data@ == gateway_call_data(
            amount,
            receiver@,
            message@,
            opt_revert_options_view(revert_options),
        ),
        r.accounts@.len() == 3,
        r.accounts@[0].pubkey@ == gateway_pda@ && !r.accounts@[0].is_signer
            && r.accounts@[0].is_writable,
        r.accounts@[1].pubkey@ == payer@ && r.accounts@[1].is_signer
            && r.accounts@[1].is_writable,
        all_zero(r.accounts@[2].pubkey@) && r.accounts@[2].pubkey@.len() == 32
            && !r.accounts@[2].is_signer && !r.accounts@[2].is_writable,
{
    let mut data: Vec<u8> = vec![0x66u8, 0x87u8, 0x6au8, 0x4du8, 0x1cu8, 0x9au8, 0x8bu8, 0x13u8];
    proof {
        assert(data@ =~= deposit_and_call_discriminator());
    }
    push_u64_le(&mut data, amount);
    push_bytes(&mut data, receiver);
    push_u32_le(&mut data, message.len() as u32);
    push_bytes(&mut data, &message);
    match &revert_options {
        Some(opts) => {
            push_byte(&mut data, 1u8);
            push_bytes(&mut data, &opts.revert_address);
            push_bytes(&mut data, &opts.abort_address);
            push_byte(&mut data, if opts.call_on_revert {
                1u8
            } else {
                0u8
            });
            push_u32_le(&mut data, opts.revert_message.len() as u32);
            push_bytes(&mut data, &opts.revert_message);
            push_u64_le(&mut data, opts.on_revert_gas_limit);
        },
        None => {
            push_byte(&mut data, 0u8);
        },
    }
    proof {
        assert(data@ =~= gateway_call_data(
            amount,
            receiver@,
            message@,
            opt_revert_options_view(revert_options),
        ));
    }
    let mut accounts: Vec<AccountMetaInfo> = Vec::new();
    accounts.push(
        AccountMetaInfo { pubkey: copy_bytes(gateway_pda), is_signer: false, is_writable: true },
    );
    accounts.push(AccountMetaInfo { pubkey: copy_bytes(payer), is_signer: true, is_writable: true });
    accounts.push(AccountMetaInfo { pubkey: zero_address(), is_signer: false, is_writable: false });
    GatewayInstruction { program_id: copy_bytes(gateway_program), accounts: accounts, data: data }
}

/// The wire message of an outbound transfer of `token_id` (bound to local
/// mint `mint`) from `owner` towards `recipient` on `destination`.
pub open spec fn transfer_message_view(
    token_id: Seq<u8>,
    mint: Seq<u8>,
    owner: Seq<u8>,
    destination_chain_id: u64,
    recipient: Seq<u8>,
    now: u64,
) -> MessageView {
    MessageView {
        message_type: CrossChainMessageType::Transfer,
        token_id: token_id,
        source_chain_id: SOLANA_CHAIN_ID,
        destination_chain_id: destination_chain_id,
        sender: owner.subrange(12, 32),
        recipient: recipient,
        metadata: enhanced_metadata_view(token_id, mint),
        timestamp: now,
    }
}

/// The revert options protecting an outbound transfer: the owner takes the
/// asset back on this chain or, in external format, on an abort, with a
/// callback carrying [`revert_message_bytes`].
pub open spec fn transfer_revert_options_view(
    token_id: Seq<u8>,
    owner: Seq<u8>,
    now: u64,
) -> RevertOptionsView {
    RevertOptionsView {
        revert_address: owner,
        abort_address: owner.subrange(12, 32),
        call_on_revert: true,
        revert_message: revert_message_bytes(token_id, owner, now),
        on_revert_gas_limit: 200000u64,
    }
}

/// Validates an outbound transfer and prepares everything it needs: the
/// transfer record (pending), the wire message, and the revert options.
/// Succeeds exactly when the owner holds exactly one unit, the destination
/// is a foreign, nonzero chain, and the recipient is nonzero; nothing is
/// mutated here.
pub fn transfer_cross_chain(
    nft_origin: &NftOrigin,
    owner: &Vec<u8>,
    token_amount: u64,
    destination_chain_id: u64,
    recipient: &Vec<u8>,
    now: u64,
    bump: u8,
) -> (r: Result<(CrossChainTransfer, CrossChainMessage, RevertOptions), UniversalNftError>)
    requires
        nft_origin.wf(),
        owner@.len() == 32,
        recipient@.len() == 32,
    ensures
        r is Ok <==> (token_amount == 1 && destination_chain_id > 0 && destination_chain_id
            != SOLANA_CHAIN_ID && !all_zero(recipient@)),
        match r {
            Ok(t) => {
                &&& t.0.token_id@ == nft_origin.token_id@
                &&& t.0.source_chain_id == SOLANA_CHAIN_ID
                &&& t.0.destination_chain_id == destination_chain_id
                &&& t.0.sender@ == owner@
                &&& t.0.recipient@ == recipient@
                &&& t.0.status == TransferStatus::Pending
                &&& t.0.initiated_at == now
                &&& t.0.completed_at is None
                &&& t.0.error_message is None
                &&& t.0.bump == bump
                &&& t.0.wf()
                &&& t.1@ == transfer_message_view(
                    nft_origin.token_id@,
                    nft_origin.original_mint@,
                    owner@,
                    destination_chain_id,
                    recipient@,
                    now,
                )
                &&& msg_wf(t.1@)
                &&& t.2@ == transfer_revert_options_view(nft_origin.token_id@, owner@, now)
            },
            Err(e) => if token_amount != 1 {
                e == UniversalNftError::NftNotFound
            } else if destination_chain_id == 0 || destination_chain_id == SOLANA_CHAIN_ID {
                e == UniversalNftError::InvalidChainId
            } else {
                e == UniversalNftError::InvalidRecipient
            },
        },
{
    if token_amount != 1 {
        return Err(UniversalNftError::NftNotFound);
    }
    if destination_chain_id == 0 {
        return Err(UniversalNftError::InvalidChainId);
    }
    if destination_chain_id == SOLANA_CHAIN_ID {
        return Err(UniversalNftError::InvalidChainId);
    }
    if is_zero_bytes(recipient) {
        return Err(UniversalNftError::InvalidRecipient);
    }
    let metadata = create_enhanced_transfer_metadata(&nft_origin.token_id, &nft_origin.original_mint);
    let message = CrossChainMessage {
        message_type: CrossChainMessageType::Transfer,
        token_id: copy_bytes(&nft_origin.token_id),
        source_chain_id: SOLANA_CHAIN_ID,
        destination_chain_id: destination_chain_id,
        sender: solana_to_evm_address(owner),
        recipient: copy_bytes(recipient),
        metadata: metadata,
        timestamp: now,
    };
    let transfer_record = CrossChainTransfer {
        token_id: copy_bytes(&nft_origin.token_id),
        source_chain_id: SOLANA_CHAIN_ID,
        destination_chain_id: destination_chain_id,
        sender: copy_bytes(owner),
        recipient: copy_bytes(recipient),
        status: TransferStatus::Pending,
        initiated_at: now,
        completed_at: None,
        error_message: None,
        bump: bump,
    };
    let revert_options = RevertOptions {
        revert_address: copy_bytes(owner),
        abort_address: solana_to_evm_address(owner),
        call_on_revert: true,
        revert_message: create_revert_message(&nft_origin.token_id, owner, now),
        on_revert_gas_limit: 200000,
    };
    proof {
        assert(message@ =~= transfer_message_view(
            nft_origin.token_id@,
            nft_origin.original_mint@,
            owner@,
            destination_chain_id,
            recipient@,
            now,
        ));
        assert(revert_options@ =~= transfer_revert_options_view(
            nft_origin.token_id@,
            owner@,
            now,
        ));
    }
    Ok((transfer_record, message, revert_options))
}

/// Consumes the outcome of destroying the local copy.  On success the
/// attempt moves to in-progress, the origin ledger records the departure
/// and the transfer counter advances; on failure the attempt is marked
/// failed with the destruction reason, nothing else changes, and the
/// relay must not be called.
pub fn apply_burn_result(
    program_state: &mut ProgramState,
    nft_origin: &mut NftOrigin,
    transfer_record: &mut CrossChainTransfer,
    burn_succeeded: bool,
    now: u64,
) -> (r: Result<CrossChainTransferEvent, UniversalNftError>)
    requires
        old(transfer_record).status == TransferStatus::Pending,
        old(transfer_record).wf(),
        old(transfer_record).destination_chain_id != SOLANA_CHAIN_ID,
        old(nft_origin).current_chain_id == SOLANA_CHAIN_ID,
        old(nft_origin).transfer_count < u64::MAX,
        old(program_state).total_transfers < u64::MAX,
    ensures
        r is Ok <==> burn_succeeded,
        transition_allowed(old(transfer_record).status, final(transfer_record).status),
        final(transfer_record).same_identity(old(transfer_record)),
        match r {
            Ok(ev) => {
                &&& final(transfer_record).status == TransferStatus::InProgress
                &&& final(transfer_record).completed_at == old(transfer_record).completed_at
                &&& final(transfer_record).error_message == old(transfer_record).error_message
                &&& final(nft_origin).current_chain_id == old(
                    transfer_record,
                ).destination_chain_id
                &&& final(nft_origin).transfer_count == old(nft_origin).transfer_count + 1
                &&& final(nft_origin).last_transfer_timestamp == now
                &&& final(nft_origin).token_id@ == old(nft_origin).token_id@
                &&& final(nft_origin).origin_chain_id == old(nft_origin).origin_chain_id
                &&& final(nft_origin).original_mint@ == old(nft_origin).original_mint@
                &&& final(program_state).total_transfers == old(program_state).total_transfers + 1
                &&& final(program_state).authority@ == old(program_state).authority@
                &&& final(program_state).gateway@ == old(program_state).gateway@
                &&& final(program_state).next_token_id == old(program_state).next_token_id
                &&& final(program_state).total_minted == old(program_state).total_minted
                &&& final(program_state).total_receives == old(program_state).total_receives
                &&& ev.token_id@ == old(nft_origin).token_id@
                &&& ev.from_chain == SOLANA_CHAIN_ID
                &&& ev.to_chain == old(transfer_record).destination_chain_id
                &&& ev.sender@ == old(transfer_record).sender@
                &&& ev.recipient@ == old(transfer_record).recipient@
                &&& ev.transfer_count == old(nft_origin).transfer_count + 1
                &&& ev.timestamp == now
            },
            Err(e) => {
                &&& e == UniversalNftError::TokenBurnFailed
                &&& final(transfer_record).status == TransferStatus::Failed
                &&& final(transfer_record).completed_at == Some(now)
                &&& final(transfer_record).error_message matches Some(m) && m@
                    == burn_failed_reason()
                &&& *final(nft_origin) == *old(nft_origin)
                &&& *final(program_state) == *old(program_state)
            },
        },
{
    if burn_succeeded {
        transfer_record.mark_in_progress();
        record_departure(nft_origin, transfer_record.destination_chain_id, now);
        program_state.total_transfers = program_state.total_transfers + 1;
        Ok(
            CrossChainTransferEvent {
                token_id: copy_bytes(&nft_origin.token_id),
                from_chain: SOLANA_CHAIN_ID,
                to_chain: transfer_record.destination_chain_id,
                sender: copy_bytes(&transfer_record.sender),
                recipient: copy_bytes(&transfer_record.recipient),
                transfer_count: nft_origin.transfer_count,
                timestamp: now,
            },
        )
    } else {
        transfer_record.mark_failed(burn_failed_reason_vec(), now);
        Err(UniversalNftError::TokenBurnFailed)
    }
}

/// Expiry of a stuck attempt: after `timeout` time units without progress
/// the sender may abandon a pending transfer.  Only `Pending` can be
/// cancelled — once the local copy is destroyed and the relay called
/// (`InProgress`), or a terminal status is reached, a late cancellation
/// could race the relay's own outcome, so the call is refused and nothing
/// changes.
pub fn cancel_expired_transfer(
    transfer_record: &mut CrossChainTransfer,
    now: u64,
    timeout: u64,
) -> (r: Result<(), UniversalNftError>)
    ensures
        r is Ok <==> (old(transfer_record).status == TransferStatus::Pending && now >= old(
            transfer_record,
        ).initiated_at && now - old(transfer_record).initiated_at >= timeout),
        match r {
            Ok(u) => {
                &&& final(transfer_record).status == TransferStatus::Cancelled
                &&& transition_allowed(
                    old(transfer_record).status,
                    final(transfer_record).status,
                )
                &&& final(transfer_record).same_identity(old(transfer_record))
                &&& final(transfer_record).completed_at == Some(now)
                &&& final(transfer_record).error_message == old(transfer_record).error_message
            },
            Err(e) => {
                &&& *final(transfer_record) == *old(transfer_record)
                &&& if old(transfer_record).status != TransferStatus::Pending {
                    e == UniversalNftError::NftNotFound
                } else {
                    e == UniversalNftError::InvalidInstructionData
                }
            },
        },
{
    let pending = match transfer_record.status {
        TransferStatus::Pending => true,
        _ => false,
    };
    if !pending {
        return Err(UniversalNftError::NftNotFound);
    }
    if now < transfer_record.initiated_at || now - transfer_record.initiated_at < timeout {
        return Err(UniversalNftError::InvalidInstructionData);
    }
    transfer_record.mark_cancelled(now);
    Ok(())
}

} // verus!
