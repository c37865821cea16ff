//! Wire codec for cross-chain messages.
//!
//! The layout is fixed and versioned by construction: a one-byte message
//! tag, the fixed-width fields in declaration order, then the metadata with
//! every variable-length field behind a 4-byte little-endian length prefix,
//! and finally the timestamp.  `encode` produces exactly [`msg_bytes`] of
//! the message; `decode` recovers exactly the message a byte string
//! encodes, and rejects everything else (truncation, unknown tags, stray
//! bytes, trailing bytes).

use vstd::prelude::*;
use vstd::bytes::lemma_auto_spec_u16_to_from_le_bytes;
use vstd::bytes::lemma_auto_spec_u32_to_from_le_bytes;
use vstd::bytes::lemma_auto_spec_u64_to_from_le_bytes;
use vstd::bytes::spec_u16_from_le_bytes;
use vstd::bytes::spec_u16_to_le_bytes;
use vstd::bytes::spec_u32_from_le_bytes;
use vstd::bytes::spec_u32_to_le_bytes;
use vstd::bytes::spec_u64_from_le_bytes;
use vstd::bytes::spec_u64_to_le_bytes;
use vstd::bytes::u16_to_le_bytes;
use vstd::bytes::u32_to_le_bytes;
use vstd::bytes::u64_to_le_bytes;
use vstd::bytes::u16_from_le_bytes;
use vstd::bytes::u32_from_le_bytes;
use vstd::bytes::u64_from_le_bytes;
use vstd::slice::slice_subrange;

use crate::errors::UniversalNftError;
use crate::state::CollectionView;
use crate::state::CreatorView;
use crate::state::CrossChainMessage;
use crate::state::CrossChainMessageType;
use crate::state::MessageView;
use crate::state::MetadataView;
use crate::state::NftCollection;
use crate::state::NftCreator;
use crate::state::NftMetadata;
use crate::state::creator_wf;
use crate::state::opt_creators_view;
use crate::state::metadata_wf;
use crate::state::msg_wf;

verus! {

// ---------------------------------------------------------------------------
// The encoding, as a mathematical function of the message value.
// ---------------------------------------------------------------------------

/// Wire tag of each message kind.
pub open spec fn tag_byte(t: CrossChainMessageType) -> u8 {
    match t {
        CrossChainMessageType::Mint => 0u8,
        CrossChainMessageType::Transfer => 1u8,
        CrossChainMessageType::Burn => 2u8,
        CrossChainMessageType::Revert => 3u8,
    }
}

/// Wire byte of a boolean.
pub open spec fn bool_byte(b: bool) -> u8 {
    if b {
        1u8
    } else {
        0u8
    }
}

/// Encoding of one creator entry: 32-byte address, verified flag, share.
pub open spec fn creator_bytes(c: CreatorView) -> Seq<u8> {
    c.address + seq![bool_byte(c.verified)] + seq![c.share]
}

/// Encoding of a creator list, entries in order.
pub open spec fn creators_bytes(cs: Seq<CreatorView>) -> Seq<u8>
    decreases cs.len(),
{
    if cs.len() == 0 {
        Seq::empty()
    } else {
        creator_bytes(cs[0]) + creators_bytes(cs.subrange(1, cs.len() as int))
    }
}

/// Encoding of the optional creator list: presence byte, then a 4-byte
/// little-endian count and the entries.
pub open spec fn opt_creators_bytes(c: Option<Seq<CreatorView>>) -> Seq<u8> {
    match c {
        None => seq![0u8],
        Some(cs) => seq![1u8] + spec_u32_to_le_bytes(cs.len() as u32) + creators_bytes(cs),
    }
}

/// Encoding of the optional collection reference: presence byte, then the
/// 32-byte address and the verified flag.
pub open spec fn opt_collection_bytes(c: Option<CollectionView>) -> Seq<u8> {
    match c {
        None => seq![0u8],
        Some(col) => seq![1u8] + col.address + seq![bool_byte(col.verified)],
    }
}

/// Encoding of the metadata block: every variable-length field behind a
/// 4-byte little-endian length prefix.
pub open spec fn metadata_bytes(md: MetadataView) -> Seq<u8> {
    spec_u32_to_le_bytes(md.name.len() as u32) + md.name + spec_u32_to_le_bytes(
        md.symbol.len() as u32,
    ) + md.symbol + spec_u32_to_le_bytes(md.uri.len() as u32) + md.uri + spec_u16_to_le_bytes(
        md.seller_fee_basis_points,
    ) + opt_creators_bytes(md.creators) + opt_collection_bytes(md.collection)
}

/// The complete wire encoding of a message.
pub open spec fn msg_bytes(m: MessageView) -> Seq<u8> {
    seq![tag_byte(m.message_type)] + m.token_id + spec_u64_to_le_bytes(m.source_chain_id)
        + spec_u64_to_le_bytes(m.destination_chain_id) + m.sender + m.recipient + metadata_bytes(
        m.metadata,
    ) + spec_u64_to_le_bytes(m.timestamp)
}

// ---------------------------------------------------------------------------
// Encoder.
// ---------------------------------------------------------------------------

/// Appends a byte string.
pub(crate) fn push_bytes(out: &mut Vec<u8>, b: &Vec<u8>)
    ensures
        final(out)@ == old(out)@ + b@,
{
    proof {
        assert(out@ =~= old(out)@ + b@.subrange(0, 0));
    }
    let mut i: usize = 0;
    while i < b.len()
        invariant
            i <= b@.len(),
            out@ == old(out)@ + b@.subrange(0, i as int),
        decreases b@.len() - i,
    {
        out.push(b[i]);
        proof {
            assert(out@ =~= old(out)@ + b@.subrange(0, i + 1));
        }
        i = i + 1;
    }
    proof {
        assert(old(out)@ + b@.subrange(0, b@.len() as int) =~= old(out)@ + b@);
    }
}

/// Appends one byte.
pub(crate) fn push_byte(out: &mut Vec<u8>, b: u8)
    ensures
        final(out)@ == old(out)@ + seq![b],
{
    out.push(b);
    proof {
        assert(out@ =~= old(out)@ + seq![b]);
    }
}

/// Appends a 2-byte little-endian integer.
pub(crate) fn push_u16_le(out: &mut Vec<u8>, x: u16)
    ensures
        final(out)@ == old(out)@ + spec_u16_to_le_bytes(x),
{
    let b = u16_to_le_bytes(x);
    push_bytes(out, &b);
}

/// Appends a 4-byte little-endian integer.
pub(crate) fn push_u32_le(out: &mut Vec<u8>, x: u32)
    ensures
        final(out)@ == old(out)@ + spec_u32_to_le_bytes(x),
{
    let b = u32_to_le_bytes(x);
    push_bytes(out, &b);
}

/// Appends an 8-byte little-endian integer.
pub(crate) fn push_u64_le(out: &mut Vec<u8>, x: u64)
    ensures
        final(out)@ == old(out)@ + spec_u64_to_le_bytes(x),
{
    let b = u64_to_le_bytes(x);
    push_bytes(out, &b);
}

/// Appending one entry to a creator list appends its encoding.
proof fn lemma_creators_bytes_push(cs: Seq<CreatorView>, c: CreatorView)
    ensures
        creators_bytes(cs.push(c)) == creators_bytes(cs) + creator_bytes(c),
    decreases cs.len(),
{
    let whole = cs.push(c);
    assert(whole.len() == cs.len() + 1);
    assert(whole[cs.len() as int] == c);
    if cs.len() == 0 {
        assert(whole[0] == c);
        assert(whole.subrange(1, whole.len() as int) =~= Seq::<CreatorView>::empty());
        assert(creators_bytes(whole) == creator_bytes(c) + creators_bytes(
            Seq::<CreatorView>::empty(),
        ));
        assert(creators_bytes(whole) =~= creators_bytes(cs) + creator_bytes(c));
    } else {
        let tail = cs.subrange(1, cs.len() as int);
        assert(whole[0] == cs[0]);
        assert(whole.subrange(1, whole.len() as int) =~= tail.push(c));
        lemma_creators_bytes_push(tail, c);
        assert(creators_bytes(whole) == creator_bytes(cs[0]) + (creators_bytes(tail)
            + creator_bytes(c)));
        assert(creators_bytes(whole) =~= creators_bytes(cs) + creator_bytes(c));
    }
}

/// Appends the metadata block.
#[verifier::rlimit(50)]
fn push_metadata(out: &mut Vec<u8>, md: &NftMetadata)
    requires
        metadata_wf(md@),
    ensures
        final(out)@ == old(out)@ + metadata_bytes(md@),
{
    push_u32_le(out, md.name.len() as u32);
    push_bytes(out, &md.name);
    push_u32_le(out, md.symbol.len() as u32);
    push_bytes(out, &md.symbol);
    push_u32_le(out, md.uri.len() as u32);
    push_bytes(out, &md.uri);
    push_u16_le(out, md.seller_fee_basis_points);
    match &md.creators {
        None => {
            push_byte(out, 0u8);
        },
        Some(cs) => {
            let ghost csv = cs@.map_values(|c: NftCreator| c@);
            push_byte(out, 1u8);
            push_u32_le(out, cs.len() as u32);
            let ghost base = out@;
            proof {
                assert(csv.subrange(0, 0) =~= Seq::<CreatorView>::empty());
                assert(base + creators_bytes(csv.subrange(0, 0)) =~= base);
            }
            let mut i: usize = 0;
            while i < cs.len()
                invariant
                    i <= cs@.len(),
                    csv == cs@.map_values(|c: NftCreator| c@),
                    forall|j: int| 0 <= j < csv.len() ==> creator_wf(#[trigger] csv[j]),
                    out@ == base + creators_bytes(csv.subrange(0, i as int)),
                decreases cs@.len() - i,
            {
                let c = &cs[i];
                push_bytes(out, &c.address);
                push_byte(out, if c.verified { 1u8 } else { 0u8 });
                push_byte(out, c.share);
                proof {
                    let prefix = csv.subrange(0, i as int);
                    lemma_creators_bytes_push(prefix, csv[i as int]);
                    assert(prefix.push(csv[i as int]) =~= csv.subrange(0, i + 1));
                    assert(out@ =~= base + creators_bytes(csv.subrange(0, i + 1)));
                }
                i = i + 1;
            }
            proof {
                assert(csv.subrange(0, csv.len() as int) =~= csv);
            }
        },
    }
    match &md.collection {
        None => {
            push_byte(out, 0u8);
        },
        Some(col) => {
            push_byte(out, 1u8);
            push_bytes(out, &col.address);
            push_byte(out, if col.verified { 1u8 } else { 0u8 });
        },
    }
    proof {
        assert(final(out)@ =~= old(out)@ + metadata_bytes(md@));
    }
}

/// Serializes a message into its wire encoding.
pub fn encode(m: &CrossChainMessage) -> (r: Vec<u8>)
    requires
        msg_wf(m@),
    ensures
        r@ == msg_bytes(m@),
{
    let mut out: Vec<u8> = Vec::new();
    let tag: u8 = match m.message_type {
        CrossChainMessageType::Mint => 0u8,
        CrossChainMessageType::Transfer => 1u8,
        CrossChainMessageType::Burn => 2u8,
        CrossChainMessageType::Revert => 3u8,
    };
    push_byte(&mut out, tag);
    push_bytes(&mut out, &m.token_id);
    push_u64_le(&mut out, m.source_chain_id);
    push_u64_le(&mut out, m.destination_chain_id);
    push_bytes(&mut out, &m.sender);
    push_bytes(&mut out, &m.recipient);
    push_metadata(&mut out, &m.metadata);
    push_u64_le(&mut out, m.timestamp);
    proof {
        assert(out@ =~= msg_bytes(m@));
    }
    out
}

// ---------------------------------------------------------------------------
// The decoding, as a mathematical function of the byte string.  Each reader
// returns the value read and the offset just past it, or nothing when the
// input is too short or malformed.
// ---------------------------------------------------------------------------

pub open spec fn rd_u8(data: Seq<u8>, off: int) -> Option<(u8, int)> {
    if 0 <= off && off + 1 <= data.len() {
        Some((data[off], off + 1))
    } else {
        None
    }
}

pub open spec fn rd_bytes(data: Seq<u8>, off: int, n: int) -> Option<(Seq<u8>, int)> {
    if 0 <= off && 0 <= n && off + n <= data.len() {
        Some((data.subrange(off, off + n), off + n))
    } else {
        None
    }
}

pub open spec fn rd_u16(data: Seq<u8>, off: int) -> Option<(u16, int)> {
    match rd_bytes(data, off, 2) {
        Some((s, o)) => Some((spec_u16_from_le_bytes(s), o)),
        None => None,
    }
}

pub open spec fn rd_u32(data: Seq<u8>, off: int) -> Option<(u32, int)> {
    match rd_bytes(data, off, 4) {
        Some((s, o)) => Some((spec_u32_from_le_bytes(s), o)),
        None => None,
    }
}

pub open spec fn rd_u64(data: Seq<u8>, off: int) -> Option<(u64, int)> {
    match rd_bytes(data, off, 8) {
        Some((s, o)) => Some((spec_u64_from_le_bytes(s), o)),
        None => None,
    }
}

pub open spec fn rd_bool(data: Seq<u8>, off: int) -> Option<(bool, int)> {
    match rd_u8(data, off) {
        Some((b, o)) => if b == 0 {
            Some((false, o))
        } else if b == 1 {
            Some((true, o))
        } else {
            None
        },
        None => None,
    }
}

pub open spec fn rd_tag(data: Seq<u8>, off: int) -> Option<(CrossChainMessageType, int)> {
    match rd_u8(data, off) {
        Some((b, o)) => if b == 0 {
            Some((CrossChainMessageType::Mint, o))
        } else if b == 1 {
            Some((CrossChainMessageType::Transfer, o))
        } else if b == 2 {
            Some((CrossChainMessageType::Burn, o))
        } else if b == 3 {
            Some((CrossChainMessageType::Revert, o))
        } else {
            None
        },
        None => None,
    }
}

pub open spec fn rd_creator(data: Seq<u8>, off: int) -> Option<(CreatorView, int)> {
    match rd_bytes(data, off, 32) {
        None => None,
        Some((addr, o1)) => match rd_bool(data, o1) {
            None => None,
            Some((v, o2)) => match rd_u8(data, o2) {
                None => None,
                Some((sh, o3)) => Some(
                    (CreatorView { address: addr, verified: v, share: sh }, o3),
                ),
            },
        },
    }
}

pub open spec fn rd_creators(data: Seq<u8>, off: int, n: int) -> Option<(Seq<CreatorView>, int)>
    decreases n,
{
    if n <= 0 {
        Some((Seq::empty(), off))
    } else {
        match rd_creator(data, off) {
            None => None,
            Some((c, o1)) => match rd_creators(data, o1, n - 1) {
                None => None,
                Some((cs, o2)) => Some((seq![c] + cs, o2)),
            },
        }
    }
}

pub open spec fn rd_opt_creators(data: Seq<u8>, off: int) -> Option<
    (Option<Seq<CreatorView>>, int),
> {
    match rd_u8(data, off) {
        None => None,
        Some((b, o1)) => if b == 0 {
            Some((None, o1))
        } else if b == 1 {
            match rd_u32(data, o1) {
                None => None,
                Some((cnt, o2)) => match rd_creators(data, o2, cnt as int) {
                    None => None,
                    Some((cs, o3)) => Some((Some(cs), o3)),
                },
            }
        } else {
            None
        },
    }
}

pub open spec fn rd_opt_collection(data: Seq<u8>, off: int) -> Option<
    (Option<CollectionView>, int),
> {
    match rd_u8(data, off) {
        None => None,
        Some((b, o1)) => if b == 0 {
            Some((None, o1))
        } else if b == 1 {
            match rd_bytes(data, o1, 32) {
                None => None,
                Some((addr, o2)) => match rd_bool(data, o2) {
                    None => None,
                    Some((v, o3)) => Some(
                        (Some(CollectionView { address: addr, verified: v }), o3),
                    ),
                },
            }
        } else {
            None
        },
    }
}

pub open spec fn rd_metadata(data: Seq<u8>, off: int) -> Option<(MetadataView, int)> {
    match rd_u32(data, off) {
        None => None,
        Some((name_len, o1)) => match rd_bytes(data, o1, name_len as int) {
            None => None,
            Some((name, o2)) => match rd_u32(data, o2) {
                None => None,
                Some((symbol_len, o3)) => match rd_bytes(data, o3, symbol_len as int) {
                    None => None,
                    Some((symbol, o4)) => match rd_u32(data, o4) {
                        None => None,
                        Some((uri_len, o5)) => match rd_bytes(data, o5, uri_len as int) {
                            None => None,
                            Some((uri, o6)) => match rd_u16(data, o6) {
                                None => None,
                                Some((fee, o7)) => match rd_opt_creators(data, o7) {
                                    None => None,
                                    Some((creators, o8)) => match rd_opt_collection(data, o8) {
                                        None => None,
                                        Some((collection, o9)) => Some(
                                            (
                                                MetadataView {
                                                    name: name,
                                                    symbol: symbol,
                                                    uri: uri,
                                                    seller_fee_basis_points: fee,
                                                    creators: creators,
                                                    collection: collection,
                                                },
                                                o9,
                                            ),
                                        ),
                                    },
                                },
                            },
                        },
                    },
                },
            },
        },
    }
}

/// The decoding relation: the message a byte string encodes, if any.  A
/// byte string decodes only when every read succeeds and no bytes trail
/// the final field.
pub open spec fn decode_spec(data: Seq<u8>) -> Option<MessageView> {
    match rd_tag(data, 0) {
        None => None,
        Some((mt, o1)) => match rd_bytes(data, o1, 32) {
            None => None,
            Some((token_id, o2)) => match rd_u64(data, o2) {
                None => None,
                Some((src, o3)) => match rd_u64(data, o3) {
                    None => None,
                    Some((dst, o4)) => match rd_bytes(data, o4, 20) {
                        None => None,
                        Some((sender, o5)) => match rd_bytes(data, o5, 32) {
                            None => None,
                            Some((recipient, o6)) => match rd_metadata(data, o6) {
                                None => None,
                                Some((md, o7)) => match rd_u64(data, o7) {
                                    None => None,
                                    Some((ts, o8)) => if o8 == data.len() {
                                        Some(
                                            MessageView {
                                                message_type: mt,
                                                token_id: token_id,
                                                source_chain_id: src,
                                                destination_chain_id: dst,
                                                sender: sender,
                                                recipient: recipient,
                                                metadata: md,
                                                timestamp: ts,
                                            },
                                        )
                                    } else {
                                        None
                                    },
                                },
                            },
                        },
                    },
                },
            },
        },
    }
}

// ---------------------------------------------------------------------------
// Decoder.
// ---------------------------------------------------------------------------

fn read_u8(data: &Vec<u8>, off: usize) -> (r: Option<(u8, usize)>)
    ensures
        match r {
            Some(p) => rd_u8(data@, off as int) == Some((p.0, p.1 as int)) && p.1 <= data@.len(),
            None => rd_u8(data@, off as int) is None,
        },
{
    if off < data.len() {
        Some((data[off], off + 1))
    } else {
        None
    }
}

fn read_bytes(data: &Vec<u8>, off: usize, n: usize) -> (r: Option<(Vec<u8>, usize)>)
    ensures
        match r {
            Some(p) => rd_bytes(data@, off as int, n as int) == Some((p.0@, p.1 as int)) && p.1
                <= data@.len(),
            None => rd_bytes(data@, off as int, n as int) is None,
        },
{
    if n <= data.len() && off <= data.len() - n {
        let s = slice_subrange(data.as_slice(), off, off + n);
        let v = vstd::slice::slice_to_vec(s);
        Some((v, off + n))
    } else {
        None
    }
}

fn read_u16(data: &Vec<u8>, off: usize) -> (r: Option<(u16, usize)>)
    ensures
        match r {
            Some(p) => rd_u16(data@, off as int) == Some((p.0, p.1 as int)) && p.1 <= data@.len(),
            None => rd_u16(data@, off as int) is None,
        },
{
    if 2 <= data.len() && off <= data.len() - 2 {
        let s = slice_subrange(data.as_slice(), off, off + 2);
        let x = u16_from_le_bytes(s);
        Some((x, off + 2))
    } else {
        None
    }
}

fn read_u32(data: &Vec<u8>, off: usize) -> (r: Option<(u32, usize)>)
    ensures
        match r {
            Some(p) => rd_u32(data@, off as int) == Some((p.0, p.1 as int)) && p.1 <= data@.len(),
            None => rd_u32(data@, off as int) is None,
        },
{
    if 4 <= data.len() && off <= data.len() - 4 {
        let s = slice_subrange(data.as_slice(), off, off + 4);
        let x = u32_from_le_bytes(s);
        Some((x, off + 4))
    } else {
        None
    }
}

fn read_u64(data: &Vec<u8>, off: usize) -> (r: Option<(u64, usize)>)
    ensures
        match r {
            Some(p) => rd_u64(data@, off as int) == Some((p.0, p.1 as int)) && p.1 <= data@.len(),
            None => rd_u64(data@, off as int) is None,
        },
{
    if 8 <= data.len() && off <= data.len() - 8 {
        let s = slice_subrange(data.as_slice(), off, off + 8);
        let x = u64_from_le_bytes(s);
        Some((x, off + 8))
    } else {
        None
    }
}

fn read_bool(data: &Vec<u8>, off: usize) -> (r: Option<(bool, usize)>)
    ensures
        match r {
            Some(p) => rd_bool(data@, off as int) == Some((p.0, p.1 as int)) && p.1 <= data@.len(),
            None => rd_bool(data@, off as int) is None,
        },
{
    match read_u8(data, off) {
        None => None,
        Some((b, o)) => {
            if b == 0 {
                Some((false, o))
            } else if b == 1 {
                Some((true, o))
            } else {
                None
            }
        },
    }
}

fn read_tag(data: &Vec<u8>, off: usize) -> (r: Option<(CrossChainMessageType, usize)>)
    ensures
        match r {
            Some(p) => rd_tag(data@, off as int) == Some((p.0, p.1 as int)) && p.1 <= data@.len(),
            None => rd_tag(data@, off as int) is None,
        },
{
    match read_u8(data, off) {
        None => None,
        Some((b, o)) => {
            if b == 0 {
                Some((CrossChainMessageType::Mint, o))
            } else if b == 1 {
                Some((CrossChainMessageType::Transfer, o))
            } else if b == 2 {
                Some((CrossChainMessageType::Burn, o))
            } else if b == 3 {
                Some((CrossChainMessageType::Revert, o))
            } else {
                None
            }
        },
    }
}

fn read_creator(data: &Vec<u8>, off: usize) -> (r: Option<(NftCreator, usize)>)
    ensures
        match r {
            Some(p) => rd_creator(data@, off as int) == Some((p.0@, p.1 as int)) && p.1
                <= data@.len() && creator_wf(p.0@),
            None => rd_creator(data@, off as int) is None,
        },
{
    match read_bytes(data, off, 32) {
        None => None,
        Some((addr, o1)) => match read_bool(data, o1) {
            None => None,
            Some((v, o2)) => match read_u8(data, o2) {
                None => None,
                Some((sh, o3)) => Some((NftCreator { address: addr, verified: v, share: sh }, o3)),
            },
        },
    }
}

/// A successful prefix parse of `k` entries followed by one more entry
/// extends to a successful parse of `k + 1` entries.
proof fn lemma_rd_creators_snoc(
    data: Seq<u8>,
    off: int,
    k: int,
    cs1: Seq<CreatorView>,
    o1: int,
    c: CreatorView,
    o2: int,
)
    requires
        k >= 0,
        rd_creators(data, off, k) == Some((cs1, o1)),
        rd_creator(data, o1) == Some((c, o2)),
    ensures
        rd_creators(data, off, k + 1) == Some((cs1.push(c), o2)),
    decreases k,
{
    if k == 0 {
        assert(cs1 =~= Seq::<CreatorView>::empty());
        assert(o1 == off);
        assert(rd_creators(data, o2, 0) == Some((Seq::<CreatorView>::empty(), o2)));
        assert(seq![c] + Seq::<CreatorView>::empty() =~= cs1.push(c));
    } else {
        let (c0, p1) = rd_creator(data, off).unwrap();
        let (cs_tail, _o) = rd_creators(data, p1, k - 1).unwrap();
        assert(cs1 == seq![c0] + cs_tail);
        lemma_rd_creators_snoc(data, p1, k - 1, cs_tail, o1, c, o2);
        assert(seq![c0] + cs_tail.push(c) =~= cs1.push(c));
    }
}

/// A failing entry after a successful prefix parse makes every longer
/// parse fail.
proof fn lemma_rd_creators_fail(
    data: Seq<u8>,
    off: int,
    k: int,
    n: int,
    cs1: Seq<CreatorView>,
    o1: int,
)
    requires
        0 <= k < n,
        rd_creators(data, off, k) == Some((cs1, o1)),
        rd_creator(data, o1) is None,
    ensures
        rd_creators(data, off, n) is None,
    decreases k,
{
    if k == 0 {
        assert(o1 == off);
    } else {
        let (c0, p1) = rd_creator(data, off).unwrap();
        let (cs_tail, _o) = rd_creators(data, p1, k - 1).unwrap();
        lemma_rd_creators_fail(data, p1, k - 1, n - 1, cs_tail, o1);
    }
}

fn read_creators(data: &Vec<u8>, off: usize, count: u32) -> (r: Option<(Vec<NftCreator>, usize)>)
    requires
        off <= data@.len(),
    ensures
        match r {
            Some(p) => rd_creators(data@, off as int, count as int) == Some(
                (p.0@.map_values(|c: NftCreator| c@), p.1 as int),
            ) && p.1 <= data@.len() && p.0@.len() == count && forall|j: int|
                0 <= j < p.0@.len() ==> creator_wf(#[trigger] p.0@[j]@),
            None => rd_creators(data@, off as int, count as int) is None,
        },
{
    let mut out: Vec<NftCreator> = Vec::new();
    let mut o: usize = off;
    let mut i: u32 = 0;
    proof {
        assert(out@.map_values(|c: NftCreator| c@) =~= Seq::<CreatorView>::empty());
    }
    while i < count
        invariant
            i <= count,
            o <= data@.len(),
            out@.len() == i,
            rd_creators(data@, off as int, i as int) == Some(
                (out@.map_values(|c: NftCreator| c@), o as int),
            ),
            forall|j: int| 0 <= j < out@.len() ==> creator_wf(#[trigger] out@[j]@),
        decreases count - i,
    {
        match read_creator(data, o) {
            None => {
                proof {
                    lemma_rd_creators_fail(
                        data@,
                        off as int,
                        i as int,
                        count as int,
                        out@.map_values(|c: NftCreator| c@),
                        o as int,
                    );
                }
                return None;
            },
            Some((c, o2)) => {
                proof {
                    lemma_rd_creators_snoc(
                        data@,
                        off as int,
                        i as int,
                        out@.map_values(|c: NftCreator| c@),
                        o as int,
                        c@,
                        o2 as int,
                    );
                    assert(out@.push(c).map_values(|cr: NftCreator| cr@) =~= out@.map_values(
                        |cr: NftCreator| cr@,
                    ).push(c@));
                }
                out.push(c);
                o = o2;
                i = i + 1;
            },
        }
    }
    Some((out, o))
}

fn read_opt_creators(data: &Vec<u8>, off: usize) -> (r: Option<(Option<Vec<NftCreator>>, usize)>)
    ensures
        match r {
            Some(p) => rd_opt_creators(data@, off as int) == Some(
                (opt_creators_view(p.0), p.1 as int),
            ) && p.1 <= data@.len() && (p.0 matches Some(cs) ==> cs@.len() <= 0xffff_ffff
                && forall|j: int| 0 <= j < cs@.len() ==> creator_wf(#[trigger] cs@[j]@)),
            None => rd_opt_creators(data@, off as int) is None,
        },
{
    match read_u8(data, off) {
        None => None,
        Some((b, o1)) => {
            if b == 0 {
                Some((None, o1))
            } else if b == 1 {
                match read_u32(data, o1) {
                    None => None,
                    Some((cnt, o2)) => match read_creators(data, o2, cnt) {
                        None => None,
                        Some((cs, o3)) => Some((Some(cs), o3)),
                    },
                }
            } else {
                None
            }
        },
    }
}

/// The optional-collection field of a metadata value, as the view sees it.
pub open spec fn opt_collection_view(oc: Option<NftCollection>) -> Option<CollectionView> {
    match oc {
        None => None,
        Some(col) => Some(col@),
    }
}

fn read_opt_collection(data: &Vec<u8>, off: usize) -> (r: Option<(Option<NftCollection>, usize)>)
    ensures
        match r {
            Some(p) => rd_opt_collection(data@, off as int) == Some(
                (opt_collection_view(p.0), p.1 as int),
            ) && p.1 <= data@.len(),
            None => rd_opt_collection(data@, off as int) is None,
        },
{
    match read_u8(data, off) {
        None => None,
        Some((b, o1)) => {
            if b == 0 {
                Some((None, o1))
            } else if b == 1 {
                match read_bytes(data, o1, 32) {
                    None => None,
                    Some((addr, o2)) => match read_bool(data, o2) {
                        None => None,
                        Some((v, o3)) => Some(
                            (Some(NftCollection { address: addr, verified: v }), o3),
                        ),
                    },
                }
            } else {
                None
            }
        },
    }
}

fn read_metadata(data: &Vec<u8>, off: usize) -> (r: Option<(NftMetadata, usize)>)
    ensures
        match r {
            Some(p) => rd_metadata(data@, off as int) == Some((p.0@, p.1 as int)) && p.1
                <= data@.len() && metadata_wf(p.0@),
            None => rd_metadata(data@, off as int) is None,
        },
{
    match read_u32(data, off) {
        None => None,
        Some((name_len, o1)) => match read_bytes(data, o1, name_len as usize) {
            None => None,
            Some((name, o2)) => match read_u32(data, o2) {
                None => None,
                Some((symbol_len, o3)) => match read_bytes(data, o3, symbol_len as usize) {
                    None => None,
                    Some((symbol, o4)) => match read_u32(data, o4) {
                        None => None,
                        Some((uri_len, o5)) => match read_bytes(data, o5, uri_len as usize) {
                            None => None,
                            Some((uri, o6)) => match read_u16(data, o6) {
                                None => None,
                                Some((fee, o7)) => match read_opt_creators(data, o7) {
                                    None => None,
                                    Some((creators, o8)) => match read_opt_collection(data, o8) {
                                        None => None,
                                        Some((collection, o9)) => {
                                            let md = NftMetadata {
                                                name: name,
                                                symbol: symbol,
                                                uri: uri,
                                                seller_fee_basis_points: fee,
                                                creators: creators,
                                                collection: collection,
                                            };
                                            proof {
                                                match &md.creators {
                                                    Some(cs) => {
                                                        let csv = cs@.map_values(
                                                            |c: NftCreator| c@,
                                                        );
                                                        assert forall|j: int|
                                                            0 <= j < csv.len() implies creator_wf(
                                                            #[trigger] csv[j],
                                                        ) by {
                                                            assert(csv[j] == cs@[j]@);
                                                        }
                                                    },
                                                    None => {},
                                                }
                                                assert(metadata_wf(md@));
                                            }
                                            Some((md, o9))
                                        },
                                    },
                                },
                            },
                        },
                    },
                },
            },
        },
    }
}

/// Parses a wire encoding back into a message.  Succeeds exactly on the
/// byte strings that are the encoding of some message, and then returns
/// that message; truncated input, unknown tags, malformed flags and
/// trailing bytes are rejected.
pub fn decode(data: &Vec<u8>) -> (r: Result<CrossChainMessage, UniversalNftError>)
    ensures
        match r {
            Ok(m) => decode_spec(data@) == Some(m@) && msg_wf(m@),
            Err(e) => decode_spec(data@) is None && e
                == UniversalNftError::InvalidCrossChainMessage,
        },
{
    let err = UniversalNftError::InvalidCrossChainMessage;
    match read_tag(data, 0) {
        None => Err(err),
        Some((mt, o1)) => match read_bytes(data, o1, 32) {
            None => Err(err),
            Some((token_id, o2)) => match read_u64(data, o2) {
                None => Err(err),
                Some((src, o3)) => match read_u64(data, o3) {
                    None => Err(err),
                    Some((dst, o4)) => match read_bytes(data, o4, 20) {
                        None => Err(err),
                        Some((sender, o5)) => match read_bytes(data, o5, 32) {
                            None => Err(err),
                            Some((recipient, o6)) => match read_metadata(data, o6) {
                                None => Err(err),
                                Some((md, o7)) => match read_u64(data, o7) {
                                    None => Err(err),
                                    Some((ts, o8)) => {
                                        if o8 == data.len() {
                                            Ok(
                                                CrossChainMessage {
                                                    message_type: mt,
                                                    token_id: token_id,
                                                    source_chain_id: src,
                                                    destination_chain_id: dst,
                                                    sender: sender,
                                                    recipient: recipient,
                                                    metadata: md,
                                                    timestamp: ts,
                                                },
                                            )
                                        } else {
                                            Err(err)
                                        }
                                    },
                                },
                            },
                        },
                    },
                },
            },
        },
    }
}

// ---------------------------------------------------------------------------
// Round trip: decoding recovers exactly the encoded message.
// ---------------------------------------------------------------------------

/// If a window of `data` holds the concatenation `head + rest`, then its
/// two halves hold `head` and `rest`.
pub(crate) proof fn lemma_split_segment(data: Seq<u8>, off: int, head: Seq<u8>, rest: Seq<u8>)
    requires
        0 <= off,
        off + head.len() + rest.len() <= data.len(),
        data.subrange(off, off + head.len() + rest.len()) == head + rest,
    ensures
        data.subrange(off, off + head.len()) == head,
        data.subrange(off + head.len(), off + head.len() + rest.len()) == rest,
{
    let whole = data.subrange(off, off + head.len() + rest.len());
    assert forall|j: int| 0 <= j < head.len() implies data[off + j] == head[j] by {
        assert(whole[j] == data[off + j]);
        assert((head + rest)[j] == head[j]);
    }
    assert forall|j: int| 0 <= j < rest.len() implies data[off + head.len() + j] == rest[j] by {
        assert(whole[head.len() + j] == data[off + head.len() + j]);
        assert((head + rest)[head.len() + j] == rest[j]);
    }
    assert(data.subrange(off, off + head.len()) =~= head);
    assert(data.subrange(off + head.len(), off + head.len() + rest.len()) =~= rest);
}

/// A window of one byte holding a one-byte string pins the byte down.
proof fn lemma_byte_at(data: Seq<u8>, off: int, b: u8)
    requires
        0 <= off,
        off + 1 <= data.len(),
        data.subrange(off, off + 1) == seq![b],
    ensures
        data[off] == b,
{
    assert(data.subrange(off, off + 1)[0] == data[off]);
    assert(seq![b][0] == b);
}

/// A window holding the encoding of a creator list parses back to exactly
/// that list.
#[verifier::rlimit(50)]
proof fn lemma_rd_creators_round_trip(data: Seq<u8>, off: int, cs: Seq<CreatorView>)
    requires
        forall|j: int| 0 <= j < cs.len() ==> creator_wf(#[trigger] cs[j]),
        0 <= off,
        off + creators_bytes(cs).len() <= data.len(),
        data.subrange(off, off + creators_bytes(cs).len()) == creators_bytes(cs),
    ensures
        rd_creators(data, off, cs.len() as int) == Some((cs, off + creators_bytes(cs).len())),
    decreases cs.len(),
{
    if cs.len() == 0 {
        assert(cs =~= Seq::<CreatorView>::empty());
    } else {
        let c0 = cs[0];
        let tail = cs.subrange(1, cs.len() as int);
        let head_bytes = creator_bytes(c0);
        let tail_bytes = creators_bytes(tail);
        assert(creators_bytes(cs) == head_bytes + tail_bytes);
        assert(head_bytes.len() == 34);
        lemma_split_segment(data, off, head_bytes, tail_bytes);
        // The single creator at `off`.
        lemma_split_segment(data, off, c0.address + seq![bool_byte(c0.verified)], seq![c0.share]);
        lemma_split_segment(data, off, c0.address, seq![bool_byte(c0.verified)]);
        lemma_byte_at(data, off + 32, bool_byte(c0.verified));
        lemma_byte_at(data, off + 33, c0.share);
        assert(rd_bytes(data, off, 32) == Some((c0.address, off + 32)));
        assert(rd_bool(data, off + 32) == Some((c0.verified, off + 33)));
        assert(rd_u8(data, off + 33) == Some((c0.share, off + 34)));
        assert(rd_creator(data, off) matches Some(p) && p.0 =~= c0 && p.1 == off + 34);
        // The remaining creators at `off + 34`.
        lemma_rd_creators_round_trip(data, off + 34, tail);
        assert(seq![c0] + tail =~= cs);
    }
}

/// A window holding the encoding of a metadata block parses back to
/// exactly that block.
#[verifier::rlimit(50)]
proof fn lemma_rd_metadata_round_trip(data: Seq<u8>, off: int, md: MetadataView)
    requires
        metadata_wf(md),
        0 <= off,
        off + metadata_bytes(md).len() <= data.len(),
        data.subrange(off, off + metadata_bytes(md).len()) == metadata_bytes(md),
    ensures
        rd_metadata(data, off) == Some((md, off + metadata_bytes(md).len())),
{
    lemma_auto_spec_u16_to_from_le_bytes();
    lemma_auto_spec_u32_to_from_le_bytes();
    let a1 = spec_u32_to_le_bytes(md.name.len() as u32);
    let a2 = md.name;
    let a3 = spec_u32_to_le_bytes(md.symbol.len() as u32);
    let a4 = md.symbol;
    let a5 = spec_u32_to_le_bytes(md.uri.len() as u32);
    let a6 = md.uri;
    let a7 = spec_u16_to_le_bytes(md.seller_fee_basis_points);
    let a8 = opt_creators_bytes(md.creators);
    let a9 = opt_collection_bytes(md.collection);
    lemma_split_segment(data, off, a1 + a2 + a3 + a4 + a5 + a6 + a7 + a8, a9);
    lemma_split_segment(data, off, a1 + a2 + a3 + a4 + a5 + a6 + a7, a8);
    lemma_split_segment(data, off, a1 + a2 + a3 + a4 + a5 + a6, a7);
    lemma_split_segment(data, off, a1 + a2 + a3 + a4 + a5, a6);
    lemma_split_segment(data, off, a1 + a2 + a3 + a4, a5);
    lemma_split_segment(data, off, a1 + a2 + a3, a4);
    lemma_split_segment(data, off, a1 + a2, a3);
    lemma_split_segment(data, off, a1, a2);
    let p1 = off + 4;
    let p2 = p1 + md.name.len() as int;
    let p3 = p2 + 4;
    let p4 = p3 + md.symbol.len() as int;
    let p5 = p4 + 4;
    let p6 = p5 + md.uri.len() as int;
    let p7 = p6 + 2;
    let p8 = p7 + a8.len() as int;
    assert(rd_u32(data, off) == Some((md.name.len() as u32, p1)));
    assert(rd_bytes(data, p1, md.name.len() as u32 as int) == Some((md.name, p2)));
    assert(rd_u32(data, p2) == Some((md.symbol.len() as u32, p3)));
    assert(rd_bytes(data, p3, md.symbol.len() as u32 as int) == Some((md.symbol, p4)));
    assert(rd_u32(data, p4) == Some((md.uri.len() as u32, p5)));
    assert(rd_bytes(data, p5, md.uri.len() as u32 as int) == Some((md.uri, p6)));
    assert(rd_u16(data, p6) == Some((md.seller_fee_basis_points, p7)));
    match md.creators {
        None => {
            assert(a8 =~= seq![0u8]);
            lemma_byte_at(data, p7, 0u8);
            assert(rd_opt_creators(data, p7) == Some((None::<Seq<CreatorView>>, p8)));
        },
        Some(cs) => {
            let b1 = seq![1u8];
            let b2 = spec_u32_to_le_bytes(cs.len() as u32);
            let b3 = creators_bytes(cs);
            assert(a8 == b1 + b2 + b3);
            lemma_split_segment(data, p7, b1 + b2, b3);
            lemma_split_segment(data, p7, b1, b2);
            lemma_byte_at(data, p7, 1u8);
            assert(rd_u32(data, p7 + 1) == Some((cs.len() as u32, p7 + 5)));
            lemma_rd_creators_round_trip(data, p7 + 5, cs);
            assert(rd_opt_creators(data, p7) == Some((Some(cs), p8)));
        },
    }
    match md.collection {
        None => {
            assert(a9 =~= seq![0u8]);
            lemma_byte_at(data, p8, 0u8);
            assert(rd_opt_collection(data, p8) == Some((None::<CollectionView>, p8 + 1)));
        },
        Some(col) => {
            let b1 = seq![1u8];
            let b2 = col.address;
            let b3 = seq![bool_byte(col.verified)];
            assert(a9 == b1 + b2 + b3);
            lemma_split_segment(data, p8, b1 + b2, b3);
            lemma_split_segment(data, p8, b1, b2);
            lemma_byte_at(data, p8, 1u8);
            assert(rd_bytes(data, p8 + 1, 32) == Some((col.address, p8 + 33)));
            lemma_byte_at(data, p8 + 33, bool_byte(col.verified));
            assert(rd_opt_collection(data, p8) matches Some(p) && p.0 matches Some(c2) && c2
                =~= col && p.1 == p8 + 34);
        },
    }
    assert(rd_metadata(data, off) matches Some(p) && p.0 =~= md && p.1 == off
        + metadata_bytes(md).len());
}

/// Round trip: decoding the encoding of any well-formed message yields
/// exactly that message.  Together with the contracts of [`encode`] and
/// [`decode`], this says `decode(encode(m))` returns `Ok` with a message
/// whose value is `m`.
pub proof fn lemma_codec_round_trip(m: MessageView)
    requires
        msg_wf(m),
    ensures
        decode_spec(msg_bytes(m)) == Some(m),
{
    lemma_auto_spec_u64_to_from_le_bytes();
    let data = msg_bytes(m);
    let a1 = seq![tag_byte(m.message_type)];
    let a2 = m.token_id;
    let a3 = spec_u64_to_le_bytes(m.source_chain_id);
    let a4 = spec_u64_to_le_bytes(m.destination_chain_id);
    let a5 = m.sender;
    let a6 = m.recipient;
    let a7 = metadata_bytes(m.metadata);
    let a8 = spec_u64_to_le_bytes(m.timestamp);
    assert(data.subrange(0, data.len() as int) =~= data);
    lemma_split_segment(data, 0, a1 + a2 + a3 + a4 + a5 + a6 + a7, a8);
    lemma_split_segment(data, 0, a1 + a2 + a3 + a4 + a5 + a6, a7);
    lemma_split_segment(data, 0, a1 + a2 + a3 + a4 + a5, a6);
    lemma_split_segment(data, 0, a1 + a2 + a3 + a4, a5);
    lemma_split_segment(data, 0, a1 + a2 + a3, a4);
    lemma_split_segment(data, 0, a1 + a2, a3);
    lemma_split_segment(data, 0, a1, a2);
    let p2 = 33int;
    let p3 = 41int;
    let p4 = 49int;
    let p5 = 69int;
    let p6 = 101int;
    let p7 = p6 + a7.len() as int;
    lemma_byte_at(data, 0, tag_byte(m.message_type));
    assert(rd_tag(data, 0) == Some((m.message_type, 1int)));
    assert(rd_bytes(data, 1, 32) == Some((m.token_id, p2)));
    assert(rd_u64(data, p2) == Some((m.source_chain_id, p3)));
    assert(rd_u64(data, p3) == Some((m.destination_chain_id, p4)));
    assert(rd_bytes(data, p4, 20) == Some((m.sender, p5)));
    assert(rd_bytes(data, p5, 32) == Some((m.recipient, p6)));
    lemma_rd_metadata_round_trip(data, p6, m.metadata);
    assert(rd_u64(data, p7) == Some((m.timestamp, data.len() as int)));
    assert(decode_spec(data) matches Some(m2) && m2 =~= m);
}

/// The encoding is injective on well-formed messages: two messages with
/// the same wire bytes are the same message.
pub proof fn lemma_encoding_injective(m1: MessageView, m2: MessageView)
    requires
        msg_wf(m1),
        msg_wf(m2),
        msg_bytes(m1) == msg_bytes(m2),
    ensures
        m1 == m2,
{
    lemma_codec_round_trip(m1);
    lemma_codec_round_trip(m2);
}

} // verus!
