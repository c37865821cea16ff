use vstd::prelude::*;

verus! {

/// Chain identifier of the ledger this program runs on.
pub const SOLANA_CHAIN_ID: u64 = 101;

/// True if every byte of `s` is zero (the default/zero address or identity).
pub open spec fn all_zero(s: Seq<u8>) -> bool {
    forall|i: int| 0 <= i < s.len() ==> s[i] == 0u8
}

/// Program configuration singleton: created once at bootstrap, then mutated
/// only through the administrative entry points.  After initialization the
/// `gateway` field is never the zero address.
pub struct ProgramState {
    /// Authority that can update the program configuration.
    pub authority: Vec<u8>,
    /// Trusted gateway (relay) address.
    pub gateway: Vec<u8>,
    /// Next token identity sequence counter, monotonically increasing.
    pub next_token_id: u64,
    /// Total assets minted locally.
    pub total_minted: u64,
    /// Total cross-chain transfers initiated.
    pub total_transfers: u64,
    /// Total cross-chain receives processed.
    pub total_receives: u64,
    /// Program version.
    pub version: u8,
    /// Seed bump for the derived account location.
    pub bump: u8,
}

impl ProgramState {
    /// Structural well-formedness: addresses have the local length, and the
    /// gateway is never the zero address after initialization.
    pub open spec fn wf(&self) -> bool {
        &&& self.authority@.len() == 32
        &&& self.gateway@.len() == 32
        &&& !all_zero(self.gateway@)
    }
}

/// Per-identity origin record: created on first mint or first inbound
/// receipt, updated on every move, never deleted.
pub struct NftOrigin {
    /// Local representation (mint key) the identity is currently bound to.
    pub original_mint: Vec<u8>,
    /// Token identity used across chains.
    pub token_id: Vec<u8>,
    /// Chain where the identity was first created; write-once.
    pub origin_chain_id: u64,
    /// Block height observed when the record was created.
    pub block_number: u64,
    /// Chain believed to currently hold the live copy.
    pub current_chain_id: u64,
    /// Number of completed departures and arrivals, monotonic.
    pub transfer_count: u64,
    /// Timestamp of the last move.
    pub last_transfer_timestamp: u64,
    /// Seed bump for the derived account location.
    pub bump: u8,
}

impl NftOrigin {
    pub open spec fn wf(&self) -> bool {
        &&& self.original_mint@.len() == 32
        &&& self.token_id@.len() == 32
    }
}

/// Once-only receipt of one inbound delivery, keyed by the message's
/// identity, source chain and timestamp.  A receipt is created when a
/// delivery is applied; its existence under the same key refuses any
/// replay of the identical message, so a redelivery can never double-apply
/// the arrival.
pub struct InboundReceipt {
    /// Token identity of the delivered message.
    pub token_id: Vec<u8>,
    /// Source chain of the delivered message.
    pub source_chain_id: u64,
    /// Timestamp carried by the delivered message.
    pub message_timestamp: u64,
    /// Seed bump for the derived account location.
    pub bump: u8,
}

impl InboundReceipt {
    pub open spec fn wf(&self) -> bool {
        self.token_id@.len() == 32
    }
}

/// Kinds of cross-chain messages carried over the wire.
#[derive(Clone, Copy, Debug, PartialEq, Eq, Structural)]
pub enum CrossChainMessageType {
    /// Mint a new asset delivered from another chain.
    Mint,
    /// Move an existing asset between chains.
    Transfer,
    /// Destroy an asset for an outbound move.
    Burn,
    /// Report a failed cross-chain operation.
    Revert,
}

/// Creator entry of an asset's display metadata.
pub struct NftCreator {
    /// Creator address (32-byte local format).
    pub address: Vec<u8>,
    /// Whether the creator is verified.
    pub verified: bool,
    /// Creator's share percentage (0-100).
    pub share: u8,
}

/// Mathematical value of an [`NftCreator`].
#[verifier::ext_equal]
pub struct CreatorView {
    pub address: Seq<u8>,
    pub verified: bool,
    pub share: u8,
}

impl View for NftCreator {
    type V = CreatorView;

    open spec fn view(&self) -> CreatorView {
        CreatorView { address: self.address@, verified: self.verified, share: self.share }
    }
}

pub open spec fn creator_wf(c: CreatorView) -> bool {
    c.address.len() == 32
}

/// The optional-creator-list field of a metadata value, as the view sees it.
pub open spec fn opt_creators_view(oc: Option<Vec<NftCreator>>) -> Option<Seq<CreatorView>> {
    match oc {
        None => None,
        Some(cs) => Some(cs@.map_values(|c: NftCreator| c@)),
    }
}

/// Sum of the share percentages of a creator list.
pub open spec fn total_share(cs: Seq<CreatorView>) -> int
    decreases cs.len(),
{
    if cs.len() == 0 {
        0
    } else {
        total_share(cs.drop_last()) + cs.last().share
    }
}

/// The share sum never shrinks as a list grows: the sum of a prefix bounds
/// the sum of the whole list from below.
pub proof fn lemma_total_share_prefix(cs: Seq<CreatorView>, k: int)
    requires
        0 <= k <= cs.len(),
    ensures
        total_share(cs) >= total_share(cs.subrange(0, k)),
    decreases cs.len() - k,
{
    if k == cs.len() {
        assert(cs.subrange(0, k) =~= cs);
    } else {
        lemma_total_share_prefix(cs, k + 1);
        assert(cs.subrange(0, k + 1).drop_last() =~= cs.subrange(0, k));
        assert(cs.subrange(0, k + 1).last() == cs[k]);
    }
}

/// A creator list is acceptable when the shares sum to at most 100.
pub open spec fn shares_ok(oc: Option<Seq<CreatorView>>) -> bool {
    match oc {
        None => true,
        Some(cs) => total_share(cs) <= 100,
    }
}

/// Checks that the share percentages of the supplied creators sum to at
/// most 100.
pub fn validate_creator_shares(creators: &Option<Vec<NftCreator>>) -> (r: bool)
    ensures
        r <==> shares_ok(opt_creators_view(*creators)),
{
    match creators {
        None => true,
        Some(cs) => {
            let ghost csv = cs@.map_values(|c: NftCreator| c@);
            let mut sum: u64 = 0;
            let mut i: usize = 0;
            proof {
                assert(csv.subrange(0, 0) =~= Seq::<CreatorView>::empty());
            }
            while i < cs.len()
                invariant
                    i <= cs@.len(),
                    *creators == Some(*cs),
                    csv == cs@.map_values(|c: NftCreator| c@),
                    sum == total_share(csv.subrange(0, i as int)),
                    sum <= 100,
                decreases cs@.len() - i,
            {
                let share = cs[i].share;
                proof {
                    assert(csv.subrange(0, i + 1).drop_last() =~= csv.subrange(0, i as int));
                    assert(csv.subrange(0, i + 1).last() == csv[i as int]);
                    assert(csv[i as int].share == share);
                }
                if sum + (share as u64) > 100 {
                    proof {
                        assert(total_share(csv.subrange(0, i + 1)) == total_share(
                            csv.subrange(0, i as int),
                        ) + csv[i as int].share);
                        lemma_total_share_prefix(csv, i + 1);
                        assert(total_share(csv) > 100);
                        assert(opt_creators_view(*creators) matches Some(cs2) && cs2 =~= csv);
                        assert(!shares_ok(opt_creators_view(*creators)));
                    }
                    return false;
                }
                sum = sum + (share as u64);
                i = i + 1;
            }
            proof {
                assert(csv.subrange(0, csv.len() as int) =~= csv);
            }
            true
        },
    }
}

/// Collection reference of an asset's display metadata.
pub struct NftCollection {
    /// Collection address (32-byte local format).
    pub address: Vec<u8>,
    /// Whether membership in the collection is verified.
    pub verified: bool,
}

/// Mathematical value of an [`NftCollection`].
#[verifier::ext_equal]
pub struct CollectionView {
    pub address: Seq<u8>,
    pub verified: bool,
}

impl View for NftCollection {
    type V = CollectionView;

    open spec fn view(&self) -> CollectionView {
        CollectionView { address: self.address@, verified: self.verified }
    }
}

pub open spec fn collection_wf(c: CollectionView) -> bool {
    c.address.len() == 32
}

/// Display metadata carried with a cross-chain message.  Text fields are
/// byte strings as they appear on the wire.
pub struct NftMetadata {
    /// Asset name.
    pub name: Vec<u8>,
    /// Asset symbol.
    pub symbol: Vec<u8>,
    /// Metadata URI.
    pub uri: Vec<u8>,
    /// Seller fee in basis points.
    pub seller_fee_basis_points: u16,
    /// Optional creator list.
    pub creators: Option<Vec<NftCreator>>,
    /// Optional collection reference.
    pub collection: Option<NftCollection>,
}

/// Mathematical value of an [`NftMetadata`].
#[verifier::ext_equal]
pub struct MetadataView {
    pub name: Seq<u8>,
    pub symbol: Seq<u8>,
    pub uri: Seq<u8>,
    pub seller_fee_basis_points: u16,
    pub creators: Option<Seq<CreatorView>>,
    pub collection: Option<CollectionView>,
}

impl View for NftMetadata {
    type V = MetadataView;

    open spec fn view(&self) -> MetadataView {
        MetadataView {
            name: self.name@,
            symbol: self.symbol@,
            uri: self.uri@,
            seller_fee_basis_points: self.seller_fee_basis_points,
            creators: match self.creators {
                Some(cs) => Some(cs@.map_values(|c: NftCreator| c@)),
                None => None,
            },
            collection: match self.collection {
                Some(col) => Some(col@),
                None => None,
            },
        }
    }
}

/// Bounds required so every variable-length field fits behind a 4-byte
/// little-endian length prefix.
pub open spec fn metadata_wf(md: MetadataView) -> bool {
    &&& md.name.len() <= 0xffff_ffff
    &&& md.symbol.len() <= 0xffff_ffff
    &&& md.uri.len() <= 0xffff_ffff
    &&& match md.creators {
        Some(cs) => {
            &&& cs.len() <= 0xffff_ffff
            &&& forall|i: int| 0 <= i < cs.len() ==> creator_wf(#[trigger] cs[i])
        },
        None => true,
    }
    &&& match md.collection {
        Some(col) => collection_wf(col),
        None => true,
    }
}

/// Wire value exchanged between chains; not persisted.
pub struct CrossChainMessage {
    /// Message kind.
    pub message_type: CrossChainMessageType,
    /// Token identity.
    pub token_id: Vec<u8>,
    /// Chain the message originates from.
    pub source_chain_id: u64,
    /// Chain the message is addressed to.
    pub destination_chain_id: u64,
    /// Sender address (20-byte external format).
    pub sender: Vec<u8>,
    /// Recipient address (32-byte local format).
    pub recipient: Vec<u8>,
    /// Display metadata for re-materialization.
    pub metadata: NftMetadata,
    /// Timestamp the message was built at.
    pub timestamp: u64,
}

/// Mathematical value of a [`CrossChainMessage`].
#[verifier::ext_equal]
pub struct MessageView {
    pub message_type: CrossChainMessageType,
    pub token_id: Seq<u8>,
    pub source_chain_id: u64,
    pub destination_chain_id: u64,
    pub sender: Seq<u8>,
    pub recipient: Seq<u8>,
    pub metadata: MetadataView,
    pub timestamp: u64,
}

impl View for CrossChainMessage {
    type V = MessageView;

    open spec fn view(&self) -> MessageView {
        MessageView {
            message_type: self.message_type,
            token_id: self.token_id@,
            source_chain_id: self.source_chain_id,
            destination_chain_id: self.destination_chain_id,
            sender: self.sender@,
            recipient: self.recipient@,
            metadata: self.metadata@,
            timestamp: self.timestamp,
        }
    }
}

/// A message that can be carried by the wire format: fixed-width addresses
/// and variable fields short enough for their length prefixes.
pub open spec fn msg_wf(m: MessageView) -> bool {
    &&& m.token_id.len() == 32
    &&& m.sender.len() == 20
    &&& m.recipient.len() == 32
    &&& metadata_wf(m.metadata)
}

/// Status of one outbound transfer attempt.
#[derive(Clone, Copy, Debug, PartialEq, Eq, Structural)]
pub enum TransferStatus {
    /// Initiated but the local copy is not yet destroyed.
    Pending,
    /// Local copy destroyed and the relay call submitted.
    InProgress,
    /// Confirmed on the destination chain.  Terminal.
    Completed,
    /// Failed and reverted.  Terminal.
    Failed,
    /// Cancelled before submission.  Terminal.
    Cancelled,
}

/// A status from which no further transition is defined.
pub open spec fn is_terminal(s: TransferStatus) -> bool {
    s == TransferStatus::Completed || s == TransferStatus::Failed || s
        == TransferStatus::Cancelled
}

/// The transition relation of the transfer state machine.  These are the
/// only permitted moves; in particular no terminal status has an outgoing
/// transition.
pub open spec fn transition_allowed(from: TransferStatus, to: TransferStatus) -> bool {
    ||| (from == TransferStatus::Pending && to == TransferStatus::InProgress)
    ||| (from == TransferStatus::Pending && to == TransferStatus::Failed)
    ||| (from == TransferStatus::Pending && to == TransferStatus::Cancelled)
    ||| (from == TransferStatus::InProgress && to == TransferStatus::Completed)
    ||| (from == TransferStatus::InProgress && to == TransferStatus::Failed)
}

/// A reachable status history of one transfer record: starts at `Pending`
/// and each step is a permitted transition.
pub open spec fn valid_history(h: Seq<TransferStatus>) -> bool {
    &&& h.len() >= 1
    &&& h[0] == TransferStatus::Pending
    &&& forall|i: int| 0 <= i < h.len() - 1 ==> transition_allowed(#[trigger] h[i], h[i + 1])
}

/// Once a history reaches a terminal status, nothing follows it: a terminal
/// entry is the last entry of any reachable history.
pub proof fn lemma_terminal_state_never_exited(h: Seq<TransferStatus>, i: int)
    requires
        valid_history(h),
        0 <= i < h.len(),
        is_terminal(h[i]),
    ensures
        i == h.len() - 1,
{
    if i < h.len() - 1 {
        assert(transition_allowed(h[i], h[i + 1]));
    }
}

/// Record of one outbound transfer attempt, immutable once terminal.
pub struct CrossChainTransfer {
    /// Token identity being transferred.
    pub token_id: Vec<u8>,
    /// Chain the transfer leaves from.
    pub source_chain_id: u64,
    /// Chain the transfer is addressed to.
    pub destination_chain_id: u64,
    /// Sender address (32-byte local format).
    pub sender: Vec<u8>,
    /// Recipient address (destination-chain format, padded to 32 bytes).
    pub recipient: Vec<u8>,
    /// Current status in the transfer state machine.
    pub status: TransferStatus,
    /// When the attempt was initiated.
    pub initiated_at: u64,
    /// When the attempt reached a terminal status, if it has.
    pub completed_at: Option<u64>,
    /// Relay-supplied failure reason; present only when `status` is `Failed`.
    pub error_message: Option<Vec<u8>>,
    /// Seed bump for the derived account location.
    pub bump: u8,
}

impl CrossChainTransfer {
    pub open spec fn wf(&self) -> bool {
        &&& self.token_id@.len() == 32
        &&& self.sender@.len() == 32
        &&& self.recipient@.len() == 32
        &&& (self.error_message is Some ==> self.status == TransferStatus::Failed)
    }

    /// All fields other than the status-machine fields, unchanged between
    /// two record values.
    pub open spec fn same_identity(&self, other: &Self) -> bool {
        &&& self.token_id@ == other.token_id@
        &&& self.source_chain_id == other.source_chain_id
        &&& self.destination_chain_id == other.destination_chain_id
        &&& self.sender@ == other.sender@
        &&& self.recipient@ == other.recipient@
        &&& self.initiated_at == other.initiated_at
        &&& self.bump == other.bump
    }

    /// Fires only after the local asset has been irreversibly destroyed on
    /// the source chain.
    pub fn mark_in_progress(&mut self)
        requires
            old(self).status == TransferStatus::Pending,
        ensures
            final(self).status == TransferStatus::InProgress,
            transition_allowed(old(self).status, final(self).status),
            final(self).same_identity(old(self)),
            final(self).completed_at == old(self).completed_at,
            final(self).error_message == old(self).error_message,
    {
        self.status = TransferStatus::InProgress;
    }

    /// Fires only on an authenticated, matching relay confirmation.
    pub fn mark_completed(&mut self, now: u64)
        requires
            old(self).status == TransferStatus::InProgress,
        ensures
            final(self).status == TransferStatus::Completed,
            transition_allowed(old(self).status, final(self).status),
            final(self).same_identity(old(self)),
            final(self).completed_at == Some(now),
            final(self).error_message == old(self).error_message,
    {
        self.status = TransferStatus::Completed;
        self.completed_at = Some(now);
    }

    /// Fires when local destruction fails before submission, or on an
    /// authenticated revert callback for this attempt.
    pub fn mark_failed(&mut self, reason: Vec<u8>, now: u64)
        requires
            old(self).status == TransferStatus::Pending || old(self).status
                == TransferStatus::InProgress,
        ensures
            final(self).status == TransferStatus::Failed,
            transition_allowed(old(self).status, final(self).status),
            final(self).same_identity(old(self)),
            final(self).completed_at == Some(now),
            final(self).error_message matches Some(r) && r@ == reason@,
    {
        self.status = TransferStatus::Failed;
        self.completed_at = Some(now);
        self.error_message = Some(reason);
    }

    /// Fires when the sender abandons an attempt that was never submitted.
    pub fn mark_cancelled(&mut self, now: u64)
        requires
            old(self).status == TransferStatus::Pending,
        ensures
            final(self).status == TransferStatus::Cancelled,
            transition_allowed(old(self).status, final(self).status),
            final(self).same_identity(old(self)),
            final(self).completed_at == Some(now),
            final(self).error_message == old(self).error_message,
    {
        self.status = TransferStatus::Cancelled;
        self.completed_at = Some(now);
    }
}

/// Delivery options handed to the gateway for failed transfers.
pub struct RevertOptions {
    /// Local address to receive the asset back if a revert occurs.
    pub revert_address: Vec<u8>,
    /// External-format address to receive the asset if an abort occurs.
    pub abort_address: Vec<u8>,
    /// Whether the gateway should call back on revert.
    pub call_on_revert: bool,
    /// Payload passed back to the revert handler.
    pub revert_message: Vec<u8>,
    /// Execution budget for the revert operation.
    pub on_revert_gas_limit: u64,
}

/// Mathematical value of a [`RevertOptions`].
#[verifier::ext_equal]
pub struct RevertOptionsView {
    pub revert_address: Seq<u8>,
    pub abort_address: Seq<u8>,
    pub call_on_revert: bool,
    pub revert_message: Seq<u8>,
    pub on_revert_gas_limit: u64,
}

impl View for RevertOptions {
    type V = RevertOptionsView;

    open spec fn view(&self) -> RevertOptionsView {
        RevertOptionsView {
            revert_address: self.revert_address@,
            abort_address: self.abort_address@,
            call_on_revert: self.call_on_revert,
            revert_message: self.revert_message@,
            on_revert_gas_limit: self.on_revert_gas_limit,
        }
    }
}

/// The optional revert options, as the view sees them.
pub open spec fn opt_revert_options_view(o: Option<RevertOptions>) -> Option<RevertOptionsView> {
    match o {
        None => None,
        Some(r) => Some(r@),
    }
}

/// Classified content of a revert callback payload.
pub struct RevertInfo {
    /// Relay-supplied failure reason (byte string).
    pub reason: Vec<u8>,
    /// Token identity the failed operation was about.
    pub token_id: Vec<u8>,
    /// Which kind of operation failed.
    pub operation_type: CrossChainMessageType,
    /// Sender of the failed operation, when known.
    pub original_sender: Vec<u8>,
    /// Timestamp attached to the revert.
    pub timestamp: u64,
}

/// Mathematical value of a [`RevertInfo`].
#[verifier::ext_equal]
pub struct RevertInfoView {
    pub reason: Seq<u8>,
    pub token_id: Seq<u8>,
    pub operation_type: CrossChainMessageType,
    pub original_sender: Seq<u8>,
    pub timestamp: u64,
}

impl View for RevertInfo {
    type V = RevertInfoView;

    open spec fn view(&self) -> RevertInfoView {
        RevertInfoView {
            reason: self.reason@,
            token_id: self.token_id@,
            operation_type: self.operation_type,
            original_sender: self.original_sender@,
            timestamp: self.timestamp,
        }
    }
}

} // verus!
