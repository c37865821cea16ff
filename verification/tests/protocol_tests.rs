use universal_nft::codec::encode;
use universal_nft::errors::UniversalNftError;
use universal_nft::initialize::initialize;
use universal_nft::mint_nft::mint_nft;
use universal_nft::mint_nft_simple::mint_nft_simple;
use universal_nft::on_call::on_call;
use universal_nft::on_call::parse_cross_chain_message;
use universal_nft::on_revert::{handle_mint_revert, handle_transfer_revert, on_revert, parse_revert_data};
use universal_nft::receive_cross_chain::receive_cross_chain;
use universal_nft::state::{
    CrossChainMessage, CrossChainMessageType, CrossChainTransfer, NftCreator, NftMetadata,
    NftOrigin, ProgramState, TransferStatus, SOLANA_CHAIN_ID,
};
use universal_nft::transfer_cross_chain::{apply_burn_result, cancel_expired_transfer, transfer_cross_chain};
use universal_nft::trigger_deposit::trigger_deposit;
use universal_nft::update_gateway::update_gateway;

const NOW: u64 = 1_700_000_000;
const SLOT: u64 = 5_000;

fn relay() -> Vec<u8> {
    vec![0x77; 32]
}

fn authority() -> Vec<u8> {
    vec![0x11; 32]
}

fn fresh_state() -> ProgramState {
    let (state, event) = initialize(&authority(), &relay(), 254, NOW).expect("bootstrap");
    assert_eq!(event.authority, authority());
    assert_eq!(event.gateway, relay());
    assert_eq!(event.version, 1);
    assert_eq!(event.timestamp, NOW);
    state
}

fn plain_metadata() -> NftMetadata {
    NftMetadata {
        name: b"Asset X".to_vec(),
        symbol: b"AX".to_vec(),
        uri: b"https://example.org/x.json".to_vec(),
        seller_fee_basis_points: 0,
        creators: None,
        collection: None,
    }
}

#[test]
fn initialize_rejects_zero_gateway() {
    let r = initialize(&authority(), &vec![0u8; 32], 254, NOW);
    assert!(matches!(r, Err(UniversalNftError::InvalidGateway)));
}

#[test]
fn initialize_sets_counters() {
    let state = fresh_state();
    assert_eq!(state.next_token_id, 1);
    assert_eq!(state.total_minted, 0);
    assert_eq!(state.total_transfers, 0);
    assert_eq!(state.total_receives, 0);
    assert_eq!(state.version, 1);
}

#[test]
fn mint_then_transfer_marks_departure() {
    // Mint an asset on this chain, then send it to chain 2: the local copy
    // is destroyed first, the record moves to in-progress, and the origin
    // ledger now points at chain 2 with the move count advanced.
    let mut state = fresh_state();
    let mint_key = vec![0x42; 32];
    let owner = vec![0x51; 32];
    let recipient = vec![0x61; 32];

    let mut origin = mint_nft(&mut state, &mint_key, SLOT, NOW, 250);
    assert_eq!(origin.origin_chain_id, SOLANA_CHAIN_ID);
    assert_eq!(origin.current_chain_id, SOLANA_CHAIN_ID);
    assert_eq!(origin.transfer_count, 1);
    assert_eq!(state.next_token_id, 2);
    assert_eq!(state.total_minted, 1);

    let (mut record, message, revert_options) =
        transfer_cross_chain(&origin, &owner, 1, 2, &recipient, NOW, 251).expect("valid transfer");
    assert_eq!(record.status, TransferStatus::Pending);
    assert_eq!(record.token_id, origin.token_id);
    assert_eq!(record.destination_chain_id, 2);
    assert_eq!(message.message_type, CrossChainMessageType::Transfer);
    assert_eq!(message.source_chain_id, SOLANA_CHAIN_ID);
    assert_eq!(message.destination_chain_id, 2);
    assert_eq!(message.sender, owner[12..32].to_vec());
    assert!(revert_options.call_on_revert);
    assert_eq!(revert_options.revert_address, owner);
    assert_eq!(revert_options.on_revert_gas_limit, 200_000);

    let event = apply_burn_result(&mut state, &mut origin, &mut record, true, NOW)
        .expect("burn succeeded");
    assert_eq!(record.status, TransferStatus::InProgress);
    assert_eq!(origin.current_chain_id, 2);
    assert_eq!(origin.transfer_count, 2);
    assert_eq!(origin.origin_chain_id, SOLANA_CHAIN_ID);
    assert_eq!(state.total_transfers, 1);
    assert_eq!(event.from_chain, SOLANA_CHAIN_ID);
    assert_eq!(event.to_chain, 2);
    assert_eq!(event.transfer_count, 2);
}

#[test]
fn transfer_validation_errors() {
    let mut state = fresh_state();
    let origin = mint_nft(&mut state, &vec![0x42; 32], SLOT, NOW, 250);
    let owner = vec![0x51; 32];
    let recipient = vec![0x61; 32];
    assert!(matches!(
        transfer_cross_chain(&origin, &owner, 0, 2, &recipient, NOW, 0),
        Err(UniversalNftError::NftNotFound)
    ));
    assert!(matches!(
        transfer_cross_chain(&origin, &owner, 1, 0, &recipient, NOW, 0),
        Err(UniversalNftError::InvalidChainId)
    ));
    assert!(matches!(
        transfer_cross_chain(&origin, &owner, 1, SOLANA_CHAIN_ID, &recipient, NOW, 0),
        Err(UniversalNftError::InvalidChainId)
    ));
    assert!(matches!(
        transfer_cross_chain(&origin, &owner, 1, 2, &vec![0u8; 32], NOW, 0),
        Err(UniversalNftError::InvalidRecipient)
    ));
}

#[test]
fn failed_burn_marks_attempt_failed_and_keeps_origin() {
    let mut state = fresh_state();
    let mut origin = mint_nft(&mut state, &vec![0x42; 32], SLOT, NOW, 250);
    let (mut record, _message, _opts) =
        transfer_cross_chain(&origin, &vec![0x51; 32], 1, 2, &vec![0x61; 32], NOW, 0)
            .expect("valid transfer");
    let r = apply_burn_result(&mut state, &mut origin, &mut record, false, NOW);
    assert!(matches!(r, Err(UniversalNftError::TokenBurnFailed)));
    assert_eq!(record.status, TransferStatus::Failed);
    assert_eq!(record.completed_at, Some(NOW));
    assert_eq!(record.error_message, Some(b"Burn failed".to_vec()));
    assert_eq!(origin.current_chain_id, SOLANA_CHAIN_ID);
    assert_eq!(origin.transfer_count, 1);
    assert_eq!(state.total_transfers, 0);
}

#[test]
fn first_inbound_receipt_creates_record() {
    // The relay delivers a transfer for an identity never seen here: a new
    // origin record is created with the source chain as origin and the
    // live copy claimed by this chain.
    let mut state = fresh_state();
    let caller = relay();
    let token_id = vec![0x99; 32];
    let new_mint = vec![0x55; 32];
    let recipient = vec![0x66; 32];
    let (origin, receipt, event) = receive_cross_chain(
        &mut state,
        &caller,
        None,
        None,
        &token_id,
        &b"Asset X".to_vec(),
        &b"AX".to_vec(),
        &None,
        &new_mint,
        &recipient,
        1,
        NOW - 3,
        SLOT,
        NOW,
        253,
        252,
    )
    .expect("gateway delivery");
    assert_eq!(receipt.token_id, token_id);
    assert_eq!(receipt.source_chain_id, 1);
    assert_eq!(receipt.message_timestamp, NOW - 3);
    assert_eq!(origin.origin_chain_id, 1);
    assert_eq!(origin.current_chain_id, SOLANA_CHAIN_ID);
    assert_eq!(origin.transfer_count, 1);
    assert_eq!(origin.original_mint, new_mint);
    assert_eq!(state.total_minted, 1);
    assert_eq!(state.total_receives, 1);
    assert!(!event.is_returning);
    assert_eq!(event.recipient, recipient);
}

#[test]
fn returning_inbound_receipt_keeps_origin_chain() {
    // The asset departed earlier (count 2, believed on chain 2) and now
    // returns: the count advances to 3 and the write-once origin stays.
    let mut state = fresh_state();
    let token_id = vec![0x99; 32];
    let previous = NftOrigin {
        original_mint: vec![0x42; 32],
        token_id: token_id.clone(),
        origin_chain_id: SOLANA_CHAIN_ID,
        block_number: 100,
        current_chain_id: 2,
        transfer_count: 2,
        last_transfer_timestamp: NOW - 50,
        bump: 250,
    };
    let new_mint = vec![0x43; 32];
    let (origin, _receipt, event) = receive_cross_chain(
        &mut state,
        &relay(),
        Some(previous),
        None,
        &token_id,
        &b"Asset X".to_vec(),
        &b"AX".to_vec(),
        &None,
        &new_mint,
        &vec![0x66; 32],
        2,
        NOW - 3,
        SLOT,
        NOW,
        253,
        252,
    )
    .expect("gateway delivery");
    assert_eq!(origin.origin_chain_id, SOLANA_CHAIN_ID);
    assert_eq!(origin.current_chain_id, SOLANA_CHAIN_ID);
    assert_eq!(origin.transfer_count, 3);
    assert_eq!(origin.original_mint, new_mint);
    assert!(event.is_returning);
}

#[test]
fn receive_rejects_non_gateway_caller() {
    let mut state = fresh_state();
    let r = receive_cross_chain(
        &mut state,
        &vec![0x08; 32],
        None,
        None,
        &vec![0x99; 32],
        &b"Asset X".to_vec(),
        &b"AX".to_vec(),
        &None,
        &vec![0x55; 32],
        &vec![0x66; 32],
        1,
        NOW - 3,
        SLOT,
        NOW,
        253,
        252,
    );
    assert!(matches!(r, Err(UniversalNftError::InvalidGatewayCaller)));
    assert_eq!(state.total_minted, 0);
    assert_eq!(state.total_receives, 0);
}

#[test]
fn receive_validation_errors() {
    let mut state = fresh_state();
    let r = receive_cross_chain(
        &mut state,
        &relay(),
        None,
        None,
        &vec![0u8; 32],
        &b"Asset X".to_vec(),
        &b"AX".to_vec(),
        &None,
        &vec![0x55; 32],
        &vec![0x66; 32],
        1,
        NOW - 3,
        SLOT,
        NOW,
        253,
        252,
    );
    assert!(matches!(r, Err(UniversalNftError::InvalidTokenId)));
    let r = receive_cross_chain(
        &mut state,
        &relay(),
        None,
        None,
        &vec![0x99; 32],
        &Vec::new(),
        &b"AX".to_vec(),
        &None,
        &vec![0x55; 32],
        &vec![0x66; 32],
        1,
        NOW - 3,
        SLOT,
        NOW,
        253,
        252,
    );
    assert!(matches!(r, Err(UniversalNftError::InvalidInstructionData)));
    let over_shared = Some(vec![
        NftCreator {
            address: vec![1u8; 32],
            verified: false,
            share: 60,
        },
        NftCreator {
            address: vec![2u8; 32],
            verified: false,
            share: 50,
        },
    ]);
    let r = receive_cross_chain(
        &mut state,
        &relay(),
        None,
        None,
        &vec![0x99; 32],
        &b"Asset X".to_vec(),
        &b"AX".to_vec(),
        &over_shared,
        &vec![0x55; 32],
        &vec![0x66; 32],
        1,
        NOW - 3,
        SLOT,
        NOW,
        253,
        252,
    );
    assert!(matches!(r, Err(UniversalNftError::InvalidInstructionData)));
    assert_eq!(state.total_receives, 0);
}

#[test]
fn authenticated_revert_fails_open_transfer() {
    // The transfer from the mint-then-transfer flow is reported reverted
    // with reason "insufficient gas": the record becomes Failed with that
    // reason, and the origin ledger is not advanced any further.
    let mut state = fresh_state();
    let mut origin = mint_nft(&mut state, &vec![0x42; 32], SLOT, NOW, 250);
    let (mut record, _message, _opts) =
        transfer_cross_chain(&origin, &vec![0x51; 32], 1, 2, &vec![0x61; 32], NOW, 0)
            .expect("valid transfer");
    apply_burn_result(&mut state, &mut origin, &mut record, true, NOW).expect("burn succeeded");
    let origin_before_count = origin.transfer_count;
    let origin_before_origin_chain = origin.origin_chain_id;

    let reason = b"insufficient gas".to_vec();
    let outcome = on_revert(
        &mut state,
        &relay(),
        0,
        &vec![0x51; 32],
        &reason,
        Some(record),
        Some(origin),
        NOW + 10,
        SLOT + 1,
    )
    .expect("authenticated revert");
    assert_eq!(outcome.revert_info.reason, reason);
    assert_eq!(
        outcome.revert_info.operation_type,
        CrossChainMessageType::Transfer
    );
    let updated = outcome
        .transfer_record
        .expect("the transfer record comes back");
    assert_eq!(updated.status, TransferStatus::Failed);
    assert_eq!(updated.completed_at, Some(NOW + 10));
    assert_eq!(updated.error_message, Some(reason.clone()));
    assert_eq!(outcome.event.reason, reason);
    // The origin ledger is restored: the live copy is no longer believed
    // to sit on the destination chain, and the move count is untouched.
    let restored = outcome.nft_origin.expect("the origin record comes back");
    assert_eq!(restored.current_chain_id, SOLANA_CHAIN_ID);
    assert_eq!(restored.transfer_count, origin_before_count);
    assert_eq!(restored.origin_chain_id, origin_before_origin_chain);
    assert_eq!(restored.last_transfer_timestamp, NOW + 10);
    assert_eq!(state.total_receives, 1);
}

#[test]
fn revert_rejects_non_gateway_caller() {
    let mut state = fresh_state();
    let r = on_revert(
        &mut state,
        &vec![0x08; 32],
        0,
        &vec![0x51; 32],
        &b"insufficient gas".to_vec(),
        None,
        None,
        NOW,
        SLOT,
    );
    assert!(matches!(r, Err(UniversalNftError::InvalidGatewayCaller)));
    assert_eq!(state.total_receives, 0);
}

#[test]
fn revert_without_open_record_fails_closed() {
    let mut state = fresh_state();
    let r = on_revert(
        &mut state,
        &relay(),
        0,
        &vec![0x51; 32],
        &b"insufficient gas".to_vec(),
        None,
        None,
        NOW,
        SLOT,
    );
    assert!(matches!(r, Err(UniversalNftError::NftNotFound)));
    assert_eq!(state.total_receives, 0);
}

#[test]
fn revert_reason_with_halt_marker_is_rejected() {
    // Structured and empty revert payloads get constant reasons that carry
    // the halt marker, so they stop the call; so does an explicit marker.
    let mut state = fresh_state();
    let r = on_revert(
        &mut state,
        &relay(),
        0,
        &vec![0x51; 32],
        &b"please revert this".to_vec(),
        None,
        None,
        NOW,
        SLOT,
    );
    assert!(matches!(r, Err(UniversalNftError::RevertMessage)));
    let r = on_revert(
        &mut state,
        &relay(),
        0,
        &vec![0x51; 32],
        &Vec::new(),
        None,
        None,
        NOW,
        SLOT,
    );
    assert!(matches!(r, Err(UniversalNftError::RevertMessage)));
    assert_eq!(state.total_receives, 0);
}

#[test]
fn parse_revert_data_classifies_payloads() {
    let info = parse_revert_data(&Vec::new(), NOW, SLOT).expect("empty payload");
    assert_eq!(info.reason, b"Unknown revert reason".to_vec());
    assert_eq!(info.token_id, vec![0u8; 32]);
    assert_eq!(info.timestamp, NOW);

    let m = CrossChainMessage {
        message_type: CrossChainMessageType::Mint,
        token_id: vec![0x31; 32],
        source_chain_id: 1,
        destination_chain_id: SOLANA_CHAIN_ID,
        sender: vec![0u8; 20],
        recipient: vec![0u8; 32],
        metadata: plain_metadata(),
        timestamp: 77,
    };
    let info = parse_revert_data(&encode(&m), NOW, SLOT).expect("structured payload");
    assert_eq!(info.reason, b"Structured revert".to_vec());
    assert_eq!(info.token_id, vec![0x31; 32]);
    assert_eq!(info.operation_type, CrossChainMessageType::Mint);
    assert_eq!(info.timestamp, 77);

    let raw = b"destination out of funds".to_vec();
    let info = parse_revert_data(&raw, NOW, SLOT).expect("text payload");
    assert_eq!(info.reason, raw);
    assert_eq!(info.operation_type, CrossChainMessageType::Transfer);

    let r = parse_revert_data(&vec![0xff, 0xfe, 0xfd], NOW, SLOT);
    assert!(matches!(r, Err(UniversalNftError::InvalidDataFormat)));
}

#[test]
fn mint_revert_counts_no_success() {
    let mut state = fresh_state();
    let info = parse_revert_data(&b"destination out of funds".to_vec(), NOW, SLOT).unwrap();
    let event = handle_mint_revert(&mut state, &info, 12);
    assert_eq!(event.amount, 12);
    assert_eq!(state.total_receives, 1);
    assert_eq!(state.total_minted, 0);
}

#[test]
fn transfer_revert_requires_open_record() {
    let mut state = fresh_state();
    let info = parse_revert_data(&b"destination out of funds".to_vec(), NOW, SLOT).unwrap();
    let terminal = CrossChainTransfer {
        token_id: vec![0x99; 32],
        source_chain_id: SOLANA_CHAIN_ID,
        destination_chain_id: 2,
        sender: vec![0x51; 32],
        recipient: vec![0x61; 32],
        status: TransferStatus::Completed,
        initiated_at: NOW,
        completed_at: Some(NOW),
        error_message: None,
        bump: 0,
    };
    let matching_origin = NftOrigin {
        original_mint: vec![0x42; 32],
        token_id: vec![0x99; 32],
        origin_chain_id: SOLANA_CHAIN_ID,
        block_number: 100,
        current_chain_id: 2,
        transfer_count: 2,
        last_transfer_timestamp: NOW,
        bump: 0,
    };
    let r = handle_transfer_revert(&mut state, terminal, matching_origin, &info, 0, NOW);
    assert!(matches!(r, Err(UniversalNftError::NftNotFound)));
    assert_eq!(state.total_receives, 0);
}

#[test]
fn on_call_rejects_non_gateway_caller() {
    let mut state = fresh_state();
    let r = on_call(
        &mut state,
        &vec![0x08; 32],
        100,
        &vec![0xaa; 20],
        &Vec::new(),
        NOW,
        SLOT,
    );
    assert!(matches!(r, Err(UniversalNftError::InvalidGatewayCaller)));
    assert_eq!(state.total_receives, 0);
}

#[test]
fn on_call_dispatches_structured_transfer() {
    let mut state = fresh_state();
    let m = CrossChainMessage {
        message_type: CrossChainMessageType::Transfer,
        token_id: vec![0x31; 32],
        source_chain_id: 1,
        destination_chain_id: SOLANA_CHAIN_ID,
        sender: vec![0u8; 20],
        recipient: vec![0u8; 32],
        metadata: plain_metadata(),
        timestamp: 77,
    };
    let outcome = on_call(
        &mut state,
        &relay(),
        100,
        &vec![0xaa; 20],
        &encode(&m),
        NOW,
        SLOT,
    )
    .expect("gateway call");
    assert!(outcome.well_formed);
    assert_eq!(outcome.forwarded_amount, 50);
    assert_eq!(outcome.message.token_id, vec![0x31; 32]);
    assert_eq!(state.total_receives, 1);
}

#[test]
fn on_call_rejects_burn_messages() {
    let mut state = fresh_state();
    let m = CrossChainMessage {
        message_type: CrossChainMessageType::Burn,
        token_id: vec![0x31; 32],
        source_chain_id: 1,
        destination_chain_id: SOLANA_CHAIN_ID,
        sender: vec![0u8; 20],
        recipient: vec![0u8; 32],
        metadata: plain_metadata(),
        timestamp: 77,
    };
    let r = on_call(
        &mut state,
        &relay(),
        100,
        &vec![0xaa; 20],
        &encode(&m),
        NOW,
        SLOT,
    );
    assert!(matches!(r, Err(UniversalNftError::InvalidCrossChainMessage)));
    assert_eq!(state.total_receives, 0);
}

#[test]
fn on_call_halts_on_marker_and_rejects_garbage() {
    let mut state = fresh_state();
    let r = on_call(
        &mut state,
        &relay(),
        100,
        &vec![0xaa; 20],
        &b"please revert now".to_vec(),
        NOW,
        SLOT,
    );
    assert!(matches!(r, Err(UniversalNftError::RevertMessage)));
    let r = on_call(
        &mut state,
        &relay(),
        100,
        &vec![0xaa; 20],
        &vec![0xff, 0xfe, 0xfd],
        NOW,
        SLOT,
    );
    assert!(matches!(r, Err(UniversalNftError::InvalidDataFormat)));
    assert_eq!(state.total_receives, 0);
}

#[test]
fn on_call_accepts_empty_payload_with_low_trust() {
    let mut state = fresh_state();
    let outcome = on_call(
        &mut state,
        &relay(),
        101,
        &vec![0xaa; 20],
        &Vec::new(),
        NOW,
        SLOT,
    )
    .expect("empty payload is tolerated");
    assert!(!outcome.well_formed);
    assert_eq!(outcome.forwarded_amount, 50);
    assert_eq!(outcome.message.token_id, vec![0u8; 32]);
    assert_eq!(outcome.message.metadata.name, b"Cross-Chain NFT".to_vec());
    assert_eq!(state.total_receives, 1);
}

#[test]
fn parse_fallback_quotes_payload() {
    let (m, well_formed) =
        parse_cross_chain_message(&b"hello".to_vec(), NOW, SLOT).expect("text payload");
    assert!(!well_formed);
    assert_eq!(m.metadata.name, b"Cross-Chain NFT: hello".to_vec());
    assert_eq!(&m.token_id[0..5], b"hello");
    assert_eq!(m.source_chain_id, 1);
    assert_eq!(m.destination_chain_id, SOLANA_CHAIN_ID);
}

#[test]
fn update_gateway_is_authority_only() {
    let mut state = fresh_state();
    let r = update_gateway(&mut state, &vec![0x08; 32], &vec![0x99; 32]);
    assert!(matches!(r, Err(UniversalNftError::Unauthorized)));
    assert_eq!(state.gateway, relay());
    let r = update_gateway(&mut state, &authority(), &vec![0u8; 32]);
    assert!(matches!(r, Err(UniversalNftError::InvalidGateway)));
    assert_eq!(state.gateway, relay());
    let ev = update_gateway(&mut state, &authority(), &vec![0x99; 32]).expect("authority update");
    assert_eq!(state.gateway, vec![0x99; 32]);
    assert_eq!(ev.old_gateway, relay());
    assert_eq!(ev.new_gateway, vec![0x99; 32]);
}

#[test]
fn mint_nft_simple_validates_inputs() {
    let mut state = fresh_state();
    assert!(matches!(
        mint_nft_simple(&mut state, &Vec::new(), &b"AX".to_vec(), &None),
        Err(UniversalNftError::InvalidInstructionData)
    ));
    assert!(matches!(
        mint_nft_simple(&mut state, &vec![b'a'; 33], &b"AX".to_vec(), &None),
        Err(UniversalNftError::InvalidInstructionData)
    ));
    assert!(matches!(
        mint_nft_simple(&mut state, &b"Asset X".to_vec(), &vec![b's'; 11], &None),
        Err(UniversalNftError::InvalidInstructionData)
    ));
    let over_shared = Some(vec![NftCreator {
        address: vec![1u8; 32],
        verified: false,
        share: 101,
    }]);
    assert!(matches!(
        mint_nft_simple(&mut state, &b"Asset X".to_vec(), &b"AX".to_vec(), &over_shared),
        Err(UniversalNftError::InvalidInstructionData)
    ));
    assert_eq!(state.total_minted, 0);
    mint_nft_simple(&mut state, &b"Asset X".to_vec(), &b"AX".to_vec(), &None)
        .expect("valid inputs");
    assert_eq!(state.total_minted, 1);
    assert_eq!(state.next_token_id, 2);
}

#[test]
fn trigger_deposit_validates_and_builds_receipt() {
    let state = fresh_state();
    let signer = vec![0x51; 32];
    let receiver = vec![0x07; 20];
    assert!(matches!(
        trigger_deposit(&state, &signer, 0, &receiver, &None, NOW, SLOT),
        Err(UniversalNftError::InvalidInstructionData)
    ));
    assert!(matches!(
        trigger_deposit(&state, &signer, 5, &vec![0u8; 20], &None, NOW, SLOT),
        Err(UniversalNftError::InvalidRecipient)
    ));
    let (message, event) =
        trigger_deposit(&state, &signer, 5, &receiver, &None, NOW, SLOT).expect("valid deposit");
    assert_eq!(message.source_chain_id, SOLANA_CHAIN_ID);
    assert_eq!(message.destination_chain_id, 1);
    assert_eq!(&message.recipient[0..12], &[0u8; 12]);
    assert_eq!(&message.recipient[12..32], &receiver[..]);
    assert_eq!(message.metadata.name, b"Deposit Receipt #5".to_vec());
    assert_eq!(event.amount, 5);
    assert!(!event.has_revert_options);
}

#[test]
fn replay_of_identical_delivery_is_refused() {
    // The same inbound message (same token identity, source chain and
    // message timestamp) must not be applied twice: the receipt created by
    // the first delivery refuses the redelivery, and nothing moves.
    let mut state = fresh_state();
    let token_id = vec![0x99; 32];
    let (origin, receipt, _event) = receive_cross_chain(
        &mut state,
        &relay(),
        None,
        None,
        &token_id,
        &b"Asset X".to_vec(),
        &b"AX".to_vec(),
        &None,
        &vec![0x55; 32],
        &vec![0x66; 32],
        1,
        NOW - 3,
        SLOT,
        NOW,
        253,
        252,
    )
    .expect("first delivery");
    assert_eq!(state.total_minted, 1);
    assert_eq!(state.total_receives, 1);
    let count_before = origin.transfer_count;
    let r = receive_cross_chain(
        &mut state,
        &relay(),
        Some(origin),
        Some(receipt),
        &token_id,
        &b"Asset X".to_vec(),
        &b"AX".to_vec(),
        &None,
        &vec![0x56; 32],
        &vec![0x66; 32],
        1,
        NOW - 3,
        SLOT + 1,
        NOW + 1,
        253,
        252,
    );
    assert!(matches!(r, Err(UniversalNftError::InvalidInstructionData)));
    assert_eq!(state.total_minted, 1);
    assert_eq!(state.total_receives, 1);
    assert_eq!(count_before, 1);
}

#[test]
fn expired_pending_transfer_can_be_cancelled() {
    let mut state = fresh_state();
    let origin = mint_nft(&mut state, &vec![0x42; 32], SLOT, NOW, 250);
    let (mut record, _message, _opts) =
        transfer_cross_chain(&origin, &vec![0x51; 32], 1, 2, &vec![0x61; 32], NOW, 0)
            .expect("valid transfer");
    // Too early: refused, nothing changes.
    let r = cancel_expired_transfer(&mut record, NOW + 10, 100);
    assert!(matches!(r, Err(UniversalNftError::InvalidInstructionData)));
    assert_eq!(record.status, TransferStatus::Pending);
    // Expired: cancelled and stamped.
    cancel_expired_transfer(&mut record, NOW + 100, 100).expect("expired attempt");
    assert_eq!(record.status, TransferStatus::Cancelled);
    assert_eq!(record.completed_at, Some(NOW + 100));
    // Terminal: a late cancellation cannot race the outcome.
    let r = cancel_expired_transfer(&mut record, NOW + 200, 100);
    assert!(matches!(r, Err(UniversalNftError::NftNotFound)));
    assert_eq!(record.status, TransferStatus::Cancelled);
}

#[test]
fn cancel_is_refused_once_submitted() {
    let mut state = fresh_state();
    let mut origin = mint_nft(&mut state, &vec![0x42; 32], SLOT, NOW, 250);
    let (mut record, _message, _opts) =
        transfer_cross_chain(&origin, &vec![0x51; 32], 1, 2, &vec![0x61; 32], NOW, 0)
            .expect("valid transfer");
    apply_burn_result(&mut state, &mut origin, &mut record, true, NOW).expect("burn succeeded");
    let r = cancel_expired_transfer(&mut record, NOW + 1000, 100);
    assert!(matches!(r, Err(UniversalNftError::NftNotFound)));
    assert_eq!(record.status, TransferStatus::InProgress);
}

#[test]
fn parse_fallback_takes_character_prefix() {
    // 23 two-byte characters: the quoted prefix is the first 20 characters
    // (40 bytes), never a split character.
    let text = "\u{3b1}".repeat(23);
    let data = text.as_bytes().to_vec();
    assert_eq!(data.len(), 46);
    let (m, well_formed) = parse_cross_chain_message(&data, NOW, SLOT).expect("text payload");
    assert!(!well_formed);
    let mut expected = b"Cross-Chain NFT: ".to_vec();
    expected.extend_from_slice(&data[..40]);
    assert_eq!(m.metadata.name, expected);
    assert!(core::str::from_utf8(&m.metadata.name).is_ok());
}
