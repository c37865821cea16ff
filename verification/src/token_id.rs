//! Token-identity allocation.
//!
//! A token identity is 32 bytes: 16 bytes of the locally-unique asset key,
//! 8 bytes of an environment counter (block height), and 8 bytes of the
//! deployment's monotonically increasing sequence counter.  Because the
//! sequence counter is taken from the configuration and incremented on
//! every allocation, two allocations of one deployment always differ.

use vstd::prelude::*;
use vstd::bytes::lemma_auto_spec_u64_to_from_le_bytes;
use vstd::bytes::spec_u64_to_le_bytes;

use crate::codec::lemma_split_segment;
use crate::codec::push_u64_le;
use crate::state::ProgramState;

verus! {

/// The identity built from an asset key, an environment counter and a
/// sequence counter: the first 16 bytes of the key, then each counter as 8
/// little-endian bytes.
pub open spec fn token_id_bytes(key: Seq<u8>, mid: u64, last: u64) -> Seq<u8> {
    key.subrange(0, 16) + spec_u64_to_le_bytes(mid) + spec_u64_to_le_bytes(last)
}

/// The first 16 bytes of `data`, zero-padded on the right when `data` is
/// shorter.
pub open spec fn padded16(data: Seq<u8>) -> Seq<u8> {
    if data.len() >= 16 {
        data.subrange(0, 16)
    } else {
        data + Seq::new((16 - data.len()) as nat, |i: int| 0u8)
    }
}

/// The best-effort identity synthesized from an opaque payload: up to 16
/// payload bytes, then the timestamp and the block height.
pub open spec fn fallback_token_id(data: Seq<u8>, now: u64, slot: u64) -> Seq<u8> {
    padded16(data) + spec_u64_to_le_bytes(now) + spec_u64_to_le_bytes(slot)
}

/// Copies the first 16 bytes of `key` (zero-padded if shorter).
fn push_prefix16(out: &mut Vec<u8>, key: &Vec<u8>)
    ensures
        final(out)@ == old(out)@ + padded16(key@),
{
    let take: usize = if key.len() >= 16 {
        16
    } else {
        key.len()
    };
    let mut i: usize = 0;
    proof {
        assert(out@ =~= old(out)@ + key@.subrange(0, 0));
    }
    while i < take
        invariant
            take <= key@.len(),
            take <= 16,
            i <= take,
            out@ == old(out)@ + key@.subrange(0, i as int),
        decreases take - i,
    {
        out.push(key[i]);
        proof {
            assert(out@ =~= old(out)@ + key@.subrange(0, i + 1));
        }
        i = i + 1;
    }
    while i < 16
        invariant
            take <= 16,
            take <= key@.len(),
            take <= i <= 16,
            out@ == old(out)@ + key@.subrange(0, take as int) + Seq::new(
                (i - take) as nat,
                |k: int| 0u8,
            ),
        decreases 16 - i,
    {
        out.push(0u8);
        proof {
            assert(out@ =~= old(out)@ + key@.subrange(0, take as int) + Seq::new(
                (i + 1 - take) as nat,
                |k: int| 0u8,
            ));
        }
        i = i + 1;
    }
    proof {
        if key@.len() >= 16 {
            assert(out@ =~= old(out)@ + padded16(key@));
        } else {
            assert(key@.subrange(0, key@.len() as int) =~= key@);
            assert(out@ =~= old(out)@ + padded16(key@));
        }
    }
}

/// Derives the identity of a freshly minted asset from its mint key, the
/// current block height, and the configuration's sequence counter.
pub fn generate_token_id(mint: &Vec<u8>, program_state: &ProgramState, slot: u64) -> (r: Vec<u8>)
    requires
        mint@.len() >= 16,
    ensures
        r@ == token_id_bytes(mint@, slot, program_state.next_token_id),
        r@.len() == 32,
{
    let mut out: Vec<u8> = Vec::new();
    push_prefix16(&mut out, mint);
    push_u64_le(&mut out, slot);
    push_u64_le(&mut out, program_state.next_token_id);
    proof {
        lemma_auto_spec_u64_to_from_le_bytes();
        assert(padded16(mint@) == mint@.subrange(0, 16));
        assert(out@ =~= token_id_bytes(mint@, slot, program_state.next_token_id));
    }
    out
}

/// Synthesizes an identity from an opaque inbound payload, the timestamp
/// and the block height.
pub fn generate_token_id_from_data(data: &Vec<u8>, now: u64, slot: u64) -> (r: Vec<u8>)
    ensures
        r@ == fallback_token_id(data@, now, slot),
        r@.len() == 32,
{
    let mut out: Vec<u8> = Vec::new();
    push_prefix16(&mut out, data);
    push_u64_le(&mut out, now);
    push_u64_le(&mut out, slot);
    proof {
        lemma_auto_spec_u64_to_from_le_bytes();
        assert(out@ =~= fallback_token_id(data@, now, slot));
    }
    out
}

/// Synthesizes an identity from the payload of a revert callback, the
/// timestamp and the block height.
pub fn generate_token_id_from_revert_data(data: &Vec<u8>, now: u64, slot: u64) -> (r: Vec<u8>)
    ensures
        r@ == fallback_token_id(data@, now, slot),
        r@.len() == 32,
{
    generate_token_id_from_data(data, now, slot)
}

/// Derives the identity of a deposit receipt from the signer, the amount
/// and the block height.
pub fn generate_deposit_token_id(signer: &Vec<u8>, amount: u64, slot: u64) -> (r: Vec<u8>)
    requires
        signer@.len() >= 16,
    ensures
        r@ == token_id_bytes(signer@, amount, slot),
        r@.len() == 32,
{
    let mut out: Vec<u8> = Vec::new();
    push_prefix16(&mut out, signer);
    push_u64_le(&mut out, amount);
    push_u64_le(&mut out, slot);
    proof {
        lemma_auto_spec_u64_to_from_le_bytes();
        assert(padded16(signer@) == signer@.subrange(0, 16));
        assert(out@ =~= token_id_bytes(signer@, amount, slot));
    }
    out
}

/// Uniqueness of allocation: two identities built with distinct sequence
/// counters differ, whatever the asset keys and block heights.  Within one
/// deployment the sequence counter increments on every allocation, so any
/// two allocations return distinct identities.
pub proof fn lemma_token_id_unique(
    key1: Seq<u8>,
    mid1: u64,
    last1: u64,
    key2: Seq<u8>,
    mid2: u64,
    last2: u64,
)
    requires
        key1.len() >= 16,
        key2.len() >= 16,
        last1 != last2,
    ensures
        token_id_bytes(key1, mid1, last1) != token_id_bytes(key2, mid2, last2),
{
    lemma_auto_spec_u64_to_from_le_bytes();
    let t1 = token_id_bytes(key1, mid1, last1);
    let t2 = token_id_bytes(key2, mid2, last2);
    if t1 == t2 {
        assert(t1.subrange(0, t1.len() as int) =~= t1);
        assert(t2.subrange(0, t2.len() as int) =~= t2);
        lemma_split_segment(
            t1,
            0,
            key1.subrange(0, 16) + spec_u64_to_le_bytes(mid1),
            spec_u64_to_le_bytes(last1),
        );
        lemma_split_segment(
            t2,
            0,
            key2.subrange(0, 16) + spec_u64_to_le_bytes(mid2),
            spec_u64_to_le_bytes(last2),
        );
        assert(spec_u64_to_le_bytes(last1) == spec_u64_to_le_bytes(last2));
        assert(false);
    }
}

} // verus!
