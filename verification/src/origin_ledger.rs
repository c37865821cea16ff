//! The origin/location ledger: per-identity records of where the live copy
//! of an asset resides, and a model of the whole multi-chain system showing
//! that the departure/arrival discipline never lets two ledgers claim the
//! live copy of one identity at the same time.

use vstd::prelude::*;

use crate::state::NftOrigin;
use crate::state::SOLANA_CHAIN_ID;

verus! {

// ---------------------------------------------------------------------------
// The local record updates.
// ---------------------------------------------------------------------------

/// Departure of the live copy from this chain.  Requires that this chain
/// currently holds the live copy; afterwards the record points at the
/// destination (so this ledger no longer claims the copy), the move count
/// is incremented and the timestamp stamped.  The identity fields are
/// untouched: `origin_chain_id` is write-once.
pub fn record_departure(origin: &mut NftOrigin, destination_chain: u64, now: u64)
    requires
        old(origin).current_chain_id == SOLANA_CHAIN_ID,
        destination_chain != SOLANA_CHAIN_ID,
        old(origin).transfer_count < u64::MAX,
    ensures
        final(origin).current_chain_id == destination_chain,
        final(origin).transfer_count == old(origin).transfer_count + 1,
        final(origin).last_transfer_timestamp == now,
        final(origin).token_id@ == old(origin).token_id@,
        final(origin).origin_chain_id == old(origin).origin_chain_id,
        final(origin).original_mint@ == old(origin).original_mint@,
        final(origin).block_number == old(origin).block_number,
        final(origin).bump == old(origin).bump,
{
    origin.current_chain_id = destination_chain;
    origin.transfer_count = origin.transfer_count + 1;
    origin.last_transfer_timestamp = now;
}

/// Arrival of the live copy on this chain.  When no record exists for the
/// identity, a record is created with the source chain as the write-once
/// origin and a move count of one; when the asset is returning, the origin
/// is kept, the count incremented.  Either way this chain now claims the
/// live copy and the record is re-bound to the fresh local mint.
pub fn record_arrival(
    existing: Option<NftOrigin>,
    token_id: &Vec<u8>,
    source_chain: u64,
    new_mint: &Vec<u8>,
    slot: u64,
    now: u64,
    bump: u8,
) -> (r: NftOrigin)
    requires
        token_id@.len() == 32,
        new_mint@.len() == 32,
        existing matches Some(o) ==> o.token_id@ == token_id@ && o.transfer_count < u64::MAX,
    ensures
        r.current_chain_id == SOLANA_CHAIN_ID,
        r.token_id@ == token_id@,
        r.original_mint@ == new_mint@,
        r.last_transfer_timestamp == now,
        r.wf(),
        match existing {
            None => r.origin_chain_id == source_chain && r.transfer_count == 1 && r.block_number
                == slot && r.bump == bump,
            Some(o) => r.origin_chain_id == o.origin_chain_id && r.transfer_count
                == o.transfer_count + 1 && r.block_number == o.block_number && r.bump == o.bump,
        },
{
    match existing {
        None => NftOrigin {
            original_mint: crate::bytes_util::copy_bytes(new_mint),
            token_id: crate::bytes_util::copy_bytes(token_id),
            origin_chain_id: source_chain,
            block_number: slot,
            current_chain_id: SOLANA_CHAIN_ID,
            transfer_count: 1,
            last_transfer_timestamp: now,
            bump: bump,
        },
        Some(o) => NftOrigin {
            original_mint: crate::bytes_util::copy_bytes(new_mint),
            token_id: crate::bytes_util::copy_bytes(token_id),
            origin_chain_id: o.origin_chain_id,
            block_number: o.block_number,
            current_chain_id: SOLANA_CHAIN_ID,
            transfer_count: o.transfer_count + 1,
            last_transfer_timestamp: now,
            bump: o.bump,
        },
    }
}

// ---------------------------------------------------------------------------
// The multi-chain model of one identity.
//
// Each chain keeps its own origin record; `records` maps a chain that has
// one to the chain that record points at, and a chain claims the live copy
// exactly when its record points at itself.  `pending` is the destination
// of the transfer message currently travelling through the relay, if any:
// the relay may drop it, deliver it once, but not duplicate it.  The
// departure/arrival discipline above then keeps the number of claimants
// plus travelling messages at one, so two ledgers never claim the live
// copy simultaneously.
// ---------------------------------------------------------------------------

/// Global state of one identity across all chains.
pub struct LedgerModel {
    /// For each chain holding a record: which chain that record points at.
    pub records: Map<u64, u64>,
    /// Destination of the undelivered transfer message, if one is in flight.
    pub pending: Option<u64>,
}

/// Chain `c` claims the live copy: it has a record pointing at itself.
pub open spec fn believes(s: LedgerModel, c: u64) -> bool {
    s.records.dom().contains(c) && s.records[c] == c
}

/// No two chains claim the live copy of the identity at the same time.
pub open spec fn at_most_one_live(s: LedgerModel) -> bool {
    forall|c1: u64, c2: u64|
        #![trigger believes(s, c1), believes(s, c2)]
        believes(s, c1) && believes(s, c2) ==> c1 == c2
}

/// The inductive invariant: at most one claimant, and none at all while a
/// transfer message is in flight.
pub open spec fn inv(s: LedgerModel) -> bool {
    &&& at_most_one_live(s)
    &&& (s.pending is Some ==> forall|c: u64| !(#[trigger] believes(s, c)))
}

/// Before the identity exists anywhere: no records, nothing in flight.
pub open spec fn init_state() -> LedgerModel {
    LedgerModel { records: Map::empty(), pending: None }
}

/// First creation of the identity on chain `c`.
pub open spec fn mint_step(pre: LedgerModel, post: LedgerModel, c: u64) -> bool {
    &&& pre.records.dom() == Set::<u64>::empty()
    &&& pre.pending is None
    &&& post.records == pre.records.insert(c, c)
    &&& post.pending is None
}

/// Departure from `c` towards `d`: the record of `c` is pointed at `d`
/// before the message enters the relay.
pub open spec fn depart_step(pre: LedgerModel, post: LedgerModel, c: u64, d: u64) -> bool {
    &&& believes(pre, c)
    &&& d != c
    &&& pre.pending is None
    &&& post.records == pre.records.insert(c, d)
    &&& post.pending == Some(d)
}

/// Delivery of the in-flight message at its destination `c`: the record of
/// `c` is created or re-pointed at `c`.
pub open spec fn arrive_step(pre: LedgerModel, post: LedgerModel, c: u64) -> bool {
    &&& pre.pending == Some(c)
    &&& post.records == pre.records.insert(c, c)
    &&& post.pending is None
}

/// The relay reports the in-flight message failed: chain `c` (its source)
/// restores its claim to the live copy instead of the destination.
pub open spec fn revert_step(pre: LedgerModel, post: LedgerModel, c: u64) -> bool {
    &&& pre.pending is Some
    &&& post.records == pre.records.insert(c, c)
    &&& post.pending is None
}

/// The relay loses the in-flight message.
pub open spec fn drop_step(pre: LedgerModel, post: LedgerModel) -> bool {
    &&& pre.pending is Some
    &&& post.records == pre.records
    &&& post.pending is None
}

/// Any event of the protocol on one identity.
pub open spec fn step(pre: LedgerModel, post: LedgerModel) -> bool {
    ||| exists|c: u64| #[trigger] mint_step(pre, post, c)
    ||| exists|c: u64, d: u64| #[trigger] depart_step(pre, post, c, d)
    ||| exists|c: u64| #[trigger] arrive_step(pre, post, c)
    ||| exists|c: u64| #[trigger] revert_step(pre, post, c)
    ||| drop_step(pre, post)
}

/// A history of the identity: starts before creation, each state follows
/// from its predecessor by one protocol event.
pub open spec fn valid_model_trace(tr: Seq<LedgerModel>) -> bool {
    &&& tr.len() >= 1
    &&& tr[0] == init_state()
    &&& forall|i: int| 0 <= i < tr.len() - 1 ==> step(#[trigger] tr[i], tr[i + 1])
}

/// The update made by [`record_departure`] is a `depart_step` of the
/// model: a ledger whose record points at itself re-points it at the
/// destination before the message enters the relay.
pub proof fn lemma_departure_matches_model(s: LedgerModel, dest: u64)
    requires
        believes(s, SOLANA_CHAIN_ID),
        dest != SOLANA_CHAIN_ID,
        s.pending is None,
    ensures
        depart_step(
            s,
            (LedgerModel {
                records: s.records.insert(SOLANA_CHAIN_ID, dest),
                pending: Some(dest),
            }),
            SOLANA_CHAIN_ID,
            dest,
        ),
{
}

/// The restoration made by a handled transfer revert is a `revert_step` of
/// the model: while the failed message was in flight no chain claimed the
/// live copy, and the source chain's record points at itself again.
pub proof fn lemma_revert_matches_model(s: LedgerModel)
    requires
        s.pending is Some,
    ensures
        revert_step(
            s,
            (LedgerModel {
                records: s.records.insert(SOLANA_CHAIN_ID, SOLANA_CHAIN_ID),
                pending: None,
            }),
            SOLANA_CHAIN_ID,
        ),
{
}

/// The update made by [`record_arrival`] is an `arrive_step` of the model:
/// the delivered message makes this ledger's record (created or updated)
/// point at itself.
pub proof fn lemma_arrival_matches_model(s: LedgerModel)
    requires
        s.pending == Some(SOLANA_CHAIN_ID),
    ensures
        arrive_step(
            s,
            (LedgerModel {
                records: s.records.insert(SOLANA_CHAIN_ID, SOLANA_CHAIN_ID),
                pending: None,
            }),
            SOLANA_CHAIN_ID,
        ),
{
}

pub proof fn lemma_init_inv()
    ensures
        inv(init_state()),
{
}

pub proof fn lemma_mint_preserves_inv(pre: LedgerModel, post: LedgerModel, c: u64)
    requires
        inv(pre),
        mint_step(pre, post, c),
    ensures
        inv(post),
{
    assert forall|x: u64| #[trigger] believes(post, x) implies x == c by {
        assert(post.records.dom().contains(x));
    }
}

pub proof fn lemma_depart_preserves_inv(pre: LedgerModel, post: LedgerModel, c: u64, d: u64)
    requires
        inv(pre),
        depart_step(pre, post, c, d),
    ensures
        inv(post),
{
    assert forall|x: u64| !(#[trigger] believes(post, x)) by {
        if believes(post, x) {
            assert(x != c);
            assert(believes(pre, x));
            assert(believes(pre, c));
        }
    }
}

pub proof fn lemma_arrive_preserves_inv(pre: LedgerModel, post: LedgerModel, c: u64)
    requires
        inv(pre),
        arrive_step(pre, post, c),
    ensures
        inv(post),
{
    assert forall|x: u64| #[trigger] believes(post, x) implies x == c by {
        if x != c {
            assert(believes(pre, x));
        }
    }
}

pub proof fn lemma_revert_preserves_inv(pre: LedgerModel, post: LedgerModel, c: u64)
    requires
        inv(pre),
        revert_step(pre, post, c),
    ensures
        inv(post),
{
    assert forall|x: u64| #[trigger] believes(post, x) implies x == c by {
        if x != c {
            assert(believes(pre, x));
        }
    }
}

pub proof fn lemma_drop_preserves_inv(pre: LedgerModel, post: LedgerModel)
    requires
        inv(pre),
        drop_step(pre, post),
    ensures
        inv(post),
{
    assert forall|x: u64| !(#[trigger] believes(post, x)) by {
        if believes(post, x) {
            assert(believes(pre, x));
        }
    }
}

/// Safety of every reachable state: along any history of departure,
/// arrival, loss and first-creation events on one identity, no two chains
/// ever claim the live copy at the same time.
pub proof fn lemma_at_most_one_live_copy(tr: Seq<LedgerModel>, i: int)
    requires
        valid_model_trace(tr),
        0 <= i < tr.len(),
    ensures
        inv(tr[i]),
        at_most_one_live(tr[i]),
    decreases i,
{
    if i == 0 {
        lemma_init_inv();
    } else {
        lemma_at_most_one_live_copy(tr, i - 1);
        let pre = tr[i - 1];
        let post = tr[i];
        assert(step(pre, post));
        if exists|c: u64| #[trigger] mint_step(pre, post, c) {
            let c = choose|c: u64| #[trigger] mint_step(pre, post, c);
            lemma_mint_preserves_inv(pre, post, c);
        } else if exists|c: u64, d: u64| #[trigger] depart_step(pre, post, c, d) {
            let (c, d) = choose|c: u64, d: u64| #[trigger] depart_step(pre, post, c, d);
            lemma_depart_preserves_inv(pre, post, c, d);
        } else if exists|c: u64| #[trigger] arrive_step(pre, post, c) {
            let c = choose|c: u64| #[trigger] arrive_step(pre, post, c);
            lemma_arrive_preserves_inv(pre, post, c);
        } else if exists|c: u64| #[trigger] revert_step(pre, post, c) {
            let c = choose|c: u64| #[trigger] revert_step(pre, post, c);
            lemma_revert_preserves_inv(pre, post, c);
        } else {
            lemma_drop_preserves_inv(pre, post);
        }
    }
}

} // verus!
