use universal_nft::codec::{decode, encode};
use universal_nft::errors::UniversalNftError;
use universal_nft::state::{
    CrossChainMessage, CrossChainMessageType, NftCollection, NftCreator, NftMetadata,
};

fn sample_metadata() -> NftMetadata {
    NftMetadata {
        name: b"Voyager".to_vec(),
        symbol: b"VGR".to_vec(),
        uri: b"https://example.org/voyager.json".to_vec(),
        seller_fee_basis_points: 500,
        creators: Some(vec![
            NftCreator {
                address: vec![7u8; 32],
                verified: true,
                share: 60,
            },
            NftCreator {
                address: vec![9u8; 32],
                verified: false,
                share: 40,
            },
        ]),
        collection: Some(NftCollection {
            address: vec![3u8; 32],
            verified: true,
        }),
    }
}

fn sample_message() -> CrossChainMessage {
    CrossChainMessage {
        message_type: CrossChainMessageType::Transfer,
        token_id: (0u8..32u8).collect(),
        source_chain_id: 101,
        destination_chain_id: 2,
        sender: vec![0xaa; 20],
        recipient: vec![0xbb; 32],
        metadata: sample_metadata(),
        timestamp: 1_700_000_000,
    }
}

fn assert_messages_equal(a: &CrossChainMessage, b: &CrossChainMessage) {
    assert_eq!(a.message_type, b.message_type);
    assert_eq!(a.token_id, b.token_id);
    assert_eq!(a.source_chain_id, b.source_chain_id);
    assert_eq!(a.destination_chain_id, b.destination_chain_id);
    assert_eq!(a.sender, b.sender);
    assert_eq!(a.recipient, b.recipient);
    assert_eq!(a.timestamp, b.timestamp);
    assert_eq!(a.metadata.name, b.metadata.name);
    assert_eq!(a.metadata.symbol, b.metadata.symbol);
    assert_eq!(a.metadata.uri, b.metadata.uri);
    assert_eq!(
        a.metadata.seller_fee_basis_points,
        b.metadata.seller_fee_basis_points
    );
    match (&a.metadata.creators, &b.metadata.creators) {
        (None, None) => {}
        (Some(x), Some(y)) => {
            assert_eq!(x.len(), y.len());
            for (cx, cy) in x.iter().zip(y.iter()) {
                assert_eq!(cx.address, cy.address);
                assert_eq!(cx.verified, cy.verified);
                assert_eq!(cx.share, cy.share);
            }
        }
        _ => panic!("creator lists differ"),
    }
    match (&a.metadata.collection, &b.metadata.collection) {
        (None, None) => {}
        (Some(x), Some(y)) => {
            assert_eq!(x.address, y.address);
            assert_eq!(x.verified, y.verified);
        }
        _ => panic!("collection references differ"),
    }
}

#[test]
fn round_trip_full_message() {
    let m = sample_message();
    let bytes = encode(&m);
    let back = decode(&bytes).expect("a fresh encoding must decode");
    assert_messages_equal(&m, &back);
}

#[test]
fn round_trip_minimal_message() {
    let m = CrossChainMessage {
        message_type: CrossChainMessageType::Mint,
        token_id: vec![1u8; 32],
        source_chain_id: 1,
        destination_chain_id: 101,
        sender: vec![0u8; 20],
        recipient: vec![0u8; 32],
        metadata: NftMetadata {
            name: Vec::new(),
            symbol: Vec::new(),
            uri: Vec::new(),
            seller_fee_basis_points: 0,
            creators: None,
            collection: None,
        },
        timestamp: 0,
    };
    let bytes = encode(&m);
    let back = decode(&bytes).expect("a fresh encoding must decode");
    assert_messages_equal(&m, &back);
}

#[test]
fn encode_layout_is_fixed() {
    let m = sample_message();
    let bytes = encode(&m);
    // Tag, then the fixed-width fields in order.
    assert_eq!(bytes[0], 1); // Transfer
    assert_eq!(&bytes[1..33], &m.token_id[..]);
    assert_eq!(&bytes[33..41], &101u64.to_le_bytes());
    assert_eq!(&bytes[41..49], &2u64.to_le_bytes());
    assert_eq!(&bytes[49..69], &m.sender[..]);
    assert_eq!(&bytes[69..101], &m.recipient[..]);
    // Metadata: 4-byte little-endian length prefix, then the name bytes.
    assert_eq!(&bytes[101..105], &7u32.to_le_bytes());
    assert_eq!(&bytes[105..112], b"Voyager");
    // The timestamp is the final 8 bytes.
    let n = bytes.len();
    assert_eq!(&bytes[n - 8..], &1_700_000_000u64.to_le_bytes());
}

#[test]
fn decode_rejects_truncated_input() {
    let m = sample_message();
    let mut bytes = encode(&m);
    bytes.pop();
    assert!(matches!(
        decode(&bytes),
        Err(UniversalNftError::InvalidCrossChainMessage)
    ));
    assert!(matches!(
        decode(&bytes[..40].to_vec()),
        Err(UniversalNftError::InvalidCrossChainMessage)
    ));
    assert!(matches!(
        decode(&Vec::new()),
        Err(UniversalNftError::InvalidCrossChainMessage)
    ));
}

#[test]
fn decode_rejects_trailing_bytes() {
    let m = sample_message();
    let mut bytes = encode(&m);
    bytes.push(0);
    assert!(matches!(
        decode(&bytes),
        Err(UniversalNftError::InvalidCrossChainMessage)
    ));
}

#[test]
fn decode_rejects_unknown_tag() {
    let m = sample_message();
    let mut bytes = encode(&m);
    bytes[0] = 7;
    assert!(matches!(
        decode(&bytes),
        Err(UniversalNftError::InvalidCrossChainMessage)
    ));
}

#[test]
fn decode_rejects_malformed_flag_byte() {
    let m = sample_message();
    let mut bytes = encode(&m);
    // Offset of the creators presence byte: header (101) plus the three
    // length-prefixed fields and the fee.
    let off = 101 + 4 + 7 + 4 + 3 + 4 + 32 + 2;
    assert_eq!(bytes[off], 1);
    bytes[off] = 2;
    assert!(matches!(
        decode(&bytes),
        Err(UniversalNftError::InvalidCrossChainMessage)
    ));
}
