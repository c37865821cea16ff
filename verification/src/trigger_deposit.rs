//! A plain deposit towards the gateway: validation and the deposit-receipt
//! message.  The gateway call itself is submitted by the surrounding code.

use vstd::prelude::*;

use crate::bytes_util::copy_bytes;
use crate::bytes_util::dec_bytes;
use crate::bytes_util::is_zero_bytes;
use crate::bytes_util::pad_evm_to_solana_address;
use crate::bytes_util::solana_to_evm_address;
use crate::bytes_util::u64_to_dec_bytes;
use crate::codec::push_bytes;
use crate::errors::UniversalNftError;
use crate::state::CrossChainMessage;
use crate::state::CrossChainMessageType;
use crate::state::MetadataView;
use crate::state::NftMetadata;
use crate::state::ProgramState;
use crate::state::RevertOptions;
use crate::state::SOLANA_CHAIN_ID;
use crate::state::all_zero;
use crate::state::msg_wf;
use crate::text::deposit_name_prefix;
use crate::text::deposit_name_prefix_vec;
use crate::text::deposit_uri;
use crate::text::deposit_uri_vec;
use crate::text::symbol_deposit;
use crate::text::symbol_deposit_vec;
use crate::token_id::generate_deposit_token_id;
use crate::token_id::token_id_bytes;

verus! {

/// Append-only audit record of a triggered deposit.
pub struct DepositTriggeredEvent {
    pub signer: Vec<u8>,
    pub amount: u64,
    pub receiver: Vec<u8>,
    pub token_id: Vec<u8>,
    pub destination_chain_id: u64,
    pub timestamp: u64,
    pub has_revert_options: bool,
}

/// The display metadata of a deposit receipt: a name carrying the decimal
/// amount, and fixed symbol and URI.
pub open spec fn deposit_metadata_view(amount: u64) -> MetadataView {
    MetadataView {
        name: deposit_name_prefix() + dec_bytes(amount as nat),
        symbol: symbol_deposit(),
        uri: deposit_uri(),
        seller_fee_basis_points: 0u16,
        creators: None,
        collection: None,
    }
}

/// Builds [`deposit_metadata_view`].
pub fn create_deposit_metadata(amount: u64) -> (r: NftMetadata)
    ensures
        r@ == deposit_metadata_view(amount),
{
    let mut name = deposit_name_prefix_vec();
    let digits = u64_to_dec_bytes(amount);
    push_bytes(&mut name, &digits);
    let md = NftMetadata {
        name: name,
        symbol: symbol_deposit_vec(),
        uri: deposit_uri_vec(),
        seller_fee_basis_points: 0,
        creators: None,
        collection: None,
    };
    proof {
        assert(md@ =~= deposit_metadata_view(amount));
    }
    md
}

/// Validates a deposit and builds its receipt message.  The amount must be
/// positive and the receiver nonzero; nothing is mutated.
pub fn trigger_deposit(
    program_state: &ProgramState,
    signer: &Vec<u8>,
    amount: u64,
    receiver: &Vec<u8>,
    revert_options: &Option<RevertOptions>,
    now: u64,
    slot: u64,
) -> (r: Result<(CrossChainMessage, DepositTriggeredEvent), UniversalNftError>)
    requires
        signer@.len() == 32,
        receiver@.len() == 20,
    ensures
        r is Ok <==> (amount > 0 && !all_zero(receiver@)),
        match r {
            Ok(p) => {
                &&& p.0@.message_type == CrossChainMessageType::Transfer
                &&& p.0@.token_id == token_id_bytes(signer@, amount, slot)
                &&& p.0@.source_chain_id == SOLANA_CHAIN_ID
                &&& p.0@.destination_chain_id == 1
                &&& p.0@.sender == signer@.subrange(12, 32)
                &&& p.0@.recipient.len() == 32
                &&& (forall|i: int| 0 <= i < 12 ==> p.0@.recipient[i] == 0u8)
                &&& (forall|i: int| 12 <= i < 32 ==> p.0@.recipient[i] == receiver@[i - 12])
                &&& p.0@.metadata == deposit_metadata_view(amount)
                &&& p.0@.timestamp == now
                &&& msg_wf(p.0@)
                &&& p.1.signer@ == signer@
                &&& p.1.amount == amount
                &&& p.1.receiver@ == receiver@
                &&& p.1.token_id@ == p.0@.token_id
                &&& p.1.destination_chain_id == 1
                &&& p.1.timestamp == now
                &&& p.1.has_revert_options == revert_options is Some
            },
            Err(e) => if amount == 0 {
                e == UniversalNftError::InvalidInstructionData
            } else {
                e == UniversalNftError::InvalidRecipient
            },
        },
{
    if amount == 0 {
        return Err(UniversalNftError::InvalidInstructionData);
    }
    if is_zero_bytes(receiver) {
        return Err(UniversalNftError::InvalidRecipient);
    }
    let token_id = generate_deposit_token_id(signer, amount, slot);
    let message = CrossChainMessage {
        message_type: CrossChainMessageType::Transfer,
        token_id: copy_bytes(&token_id),
        source_chain_id: SOLANA_CHAIN_ID,
        destination_chain_id: 1,
        sender: solana_to_evm_address(signer),
        recipient: pad_evm_to_solana_address(receiver),
        metadata: create_deposit_metadata(amount),
        timestamp: now,
    };
    proof {
        crate::bytes_util::lemma_dec_bytes_len_u64(amount);
    }
    let event = DepositTriggeredEvent {
        signer: copy_bytes(signer),
        amount: amount,
        receiver: copy_bytes(receiver),
        token_id: token_id,
        destination_chain_id: 1,
        timestamp: now,
        has_revert_options: revert_options.is_some(),
    };
    Ok((message, event))
}

} // verus!
