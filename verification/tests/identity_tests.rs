use universal_nft::state::{ProgramState, RevertOptions};
use universal_nft::token_id::{
    generate_deposit_token_id, generate_token_id, generate_token_id_from_data,
    generate_token_id_from_revert_data,
};
use universal_nft::transfer_cross_chain::{
    create_enhanced_transfer_metadata, create_gateway_deposit_and_call_instruction,
    create_revert_message,
};
use universal_nft::trigger_deposit::create_deposit_metadata;

fn state_with_counter(next_token_id: u64) -> ProgramState {
    ProgramState {
        authority: vec![0x11; 32],
        gateway: vec![0x22; 32],
        next_token_id,
        total_minted: 0,
        total_transfers: 0,
        total_receives: 0,
        version: 1,
        bump: 255,
    }
}

#[test]
fn token_id_layout_is_key_slot_counter() {
    let mint: Vec<u8> = (100u8..132u8).collect();
    let state = state_with_counter(7);
    let id = generate_token_id(&mint, &state, 0x0102030405060708);
    assert_eq!(id.len(), 32);
    assert_eq!(&id[0..16], &mint[0..16]);
    assert_eq!(&id[16..24], &0x0102030405060708u64.to_le_bytes());
    assert_eq!(&id[24..32], &7u64.to_le_bytes());
}

#[test]
fn token_ids_differ_across_allocations() {
    // Same asset key and slot: the advancing sequence counter alone keeps
    // identities distinct within one deployment.
    let mint = vec![5u8; 32];
    let a = generate_token_id(&mint, &state_with_counter(1), 42);
    let b = generate_token_id(&mint, &state_with_counter(2), 42);
    assert_ne!(a, b);
}

#[test]
fn fallback_token_id_pads_short_payloads() {
    let data = b"hello".to_vec();
    let id = generate_token_id_from_data(&data, 9, 11);
    assert_eq!(id.len(), 32);
    assert_eq!(&id[0..5], b"hello");
    assert_eq!(&id[5..16], &[0u8; 11]);
    assert_eq!(&id[16..24], &9u64.to_le_bytes());
    assert_eq!(&id[24..32], &11u64.to_le_bytes());
    let same = generate_token_id_from_revert_data(&data, 9, 11);
    assert_eq!(id, same);
}

#[test]
fn deposit_token_id_embeds_signer_and_amount() {
    let signer: Vec<u8> = (1u8..33u8).collect();
    let id = generate_deposit_token_id(&signer, 777, 13);
    assert_eq!(&id[0..16], &signer[0..16]);
    assert_eq!(&id[16..24], &777u64.to_le_bytes());
    assert_eq!(&id[24..32], &13u64.to_le_bytes());
}

#[test]
fn enhanced_metadata_quotes_hex_identity() {
    let token_id: Vec<u8> = (0u8..32u8).collect();
    let mint = vec![0xcd; 32];
    let md = create_enhanced_transfer_metadata(&token_id, &mint);
    // hex::encode of 00 01 02 ... 1f, lowercase, two digits per byte.
    let full_hex = b"000102030405060708090a0b0c0d0e0f101112131415161718191a1b1c1d1e1f";
    assert_eq!(md.name, b"Universal NFT #00010203".to_vec());
    let mut expected_uri = b"https://api.universalnft.io/metadata/".to_vec();
    expected_uri.extend_from_slice(full_hex);
    expected_uri.extend_from_slice(b".json");
    assert_eq!(md.uri, expected_uri);
    assert_eq!(md.symbol, b"UNFT".to_vec());
    assert_eq!(md.seller_fee_basis_points, 250);
    let creators = md.creators.expect("one creator");
    assert_eq!(creators.len(), 1);
    assert_eq!(creators[0].address, mint);
    assert!(creators[0].verified);
    assert_eq!(creators[0].share, 100);
    let collection = md.collection.expect("a collection reference");
    assert_eq!(collection.address, mint);
    assert!(collection.verified);
}

#[test]
fn revert_message_spells_identity_owner_and_time() {
    let token_id = vec![0u8; 32];
    let owner = vec![0xaa; 32];
    let msg = create_revert_message(&token_id, &owner, 51234);
    let mut expected = b"REVERT_NFT_TRANSFER|token_id:".to_vec();
    expected.extend_from_slice(&[b'0'; 64]);
    expected.extend_from_slice(b"|original_owner:");
    // base58 (Bitcoin alphabet) of 32 bytes of 0xaa.
    expected.extend_from_slice(b"CVDFLCAjXhVWiPXH9nTCTpCgVzmDVoiPzNJYuccr1dqB");
    expected.extend_from_slice(b"|timestamp:51234");
    assert_eq!(msg, expected);
}

#[test]
fn deposit_metadata_carries_decimal_amount() {
    let md = create_deposit_metadata(1234567890);
    assert_eq!(md.name, b"Deposit Receipt #1234567890".to_vec());
    let zero = create_deposit_metadata(0);
    assert_eq!(zero.name, b"Deposit Receipt #0".to_vec());
    assert_eq!(md.symbol, b"DEPOSIT".to_vec());
    assert_eq!(
        md.uri,
        b"https://universal-nft.example.com/deposit-metadata.json".to_vec()
    );
    assert!(md.creators.is_none());
    assert!(md.collection.is_none());
}

#[test]
fn gateway_instruction_serializes_revert_options() {
    let gateway = vec![1u8; 32];
    let pda = vec![2u8; 32];
    let payer = vec![3u8; 32];
    let receiver = vec![4u8; 32];
    let opts = RevertOptions {
        revert_address: vec![5u8; 32],
        abort_address: vec![6u8; 20],
        call_on_revert: true,
        revert_message: b"back".to_vec(),
        on_revert_gas_limit: 200_000,
    };
    let ix = create_gateway_deposit_and_call_instruction(
        &gateway,
        &pda,
        &payer,
        0,
        &receiver,
        Vec::new(),
        Some(opts),
    );
    // Discriminator, amount, receiver, empty message, then the options.
    let base = 8 + 8 + 32 + 4;
    assert_eq!(ix.data[base], 1); // options present
    assert_eq!(&ix.data[base + 1..base + 33], &[5u8; 32]);
    assert_eq!(&ix.data[base + 33..base + 53], &[6u8; 20]);
    assert_eq!(ix.data[base + 53], 1); // call_on_revert
    assert_eq!(&ix.data[base + 54..base + 58], &4u32.to_le_bytes());
    assert_eq!(&ix.data[base + 58..base + 62], b"back");
    assert_eq!(&ix.data[base + 62..base + 70], &200_000u64.to_le_bytes());
    assert_eq!(ix.data.len(), base + 70);
}

#[test]
fn gateway_instruction_has_discriminator_and_accounts() {
    let gateway = vec![1u8; 32];
    let pda = vec![2u8; 32];
    let payer = vec![3u8; 32];
    let receiver = vec![4u8; 32];
    let message = b"payload".to_vec();
    let ix = create_gateway_deposit_and_call_instruction(
        &gateway, &pda, &payer, 99, &receiver, message, None,
    );
    assert_eq!(ix.program_id, gateway);
    assert_eq!(
        &ix.data[0..8],
        &[0x66, 0x87, 0x6a, 0x4d, 0x1c, 0x9a, 0x8b, 0x13]
    );
    assert_eq!(&ix.data[8..16], &99u64.to_le_bytes());
    assert_eq!(&ix.data[16..48], &receiver[..]);
    assert_eq!(&ix.data[48..52], &7u32.to_le_bytes());
    assert_eq!(&ix.data[52..59], b"payload");
    assert_eq!(ix.data[59], 0); // no revert options
    assert_eq!(ix.data.len(), 60);
    assert_eq!(ix.accounts.len(), 3);
    assert_eq!(ix.accounts[0].pubkey, pda);
    assert!(!ix.accounts[0].is_signer);
    assert!(ix.accounts[0].is_writable);
    assert_eq!(ix.accounts[1].pubkey, payer);
    assert!(ix.accounts[1].is_signer);
    assert!(ix.accounts[1].is_writable);
    assert_eq!(ix.accounts[2].pubkey, vec![0u8; 32]);
    assert!(!ix.accounts[2].is_signer);
    assert!(!ix.accounts[2].is_writable);
}
