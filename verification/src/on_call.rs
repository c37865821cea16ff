//! Inbound routing of gateway-delivered calls: authenticate the calling
//! program, parse the payload (structured first, then a clearly marked
//! best-effort fallback), dispatch on the message kind, and account for the
//! delivery.  Half of any attached value is forwarded by the surrounding
//! code; the amount is computed here so the whole call stays atomic.

use vstd::prelude::*;

use crate::bytes_util::bytes_eq;
use crate::bytes_util::contains_bytes;
use crate::bytes_util::contains_seq;
use crate::bytes_util::zero_bytes;
use crate::bytes_util::zero_seq;
use crate::codec::decode;
use crate::codec::decode_spec;
use crate::errors::UniversalNftError;
use crate::outside::check_utf8;
use crate::outside::utf8_ok;
use crate::state::CrossChainMessage;
use crate::state::CrossChainMessageType;
use crate::state::MessageView;
use crate::state::MetadataView;
use crate::state::NftMetadata;
use crate::state::ProgramState;
use crate::state::SOLANA_CHAIN_ID;
use crate::state::msg_wf;
use crate::text::default_name;
use crate::text::default_name_vec;
use crate::text::default_uri;
use crate::text::default_uri_vec;
use crate::text::fallback_name_prefix;
use crate::text::fallback_name_prefix_vec;
use crate::text::revert_marker;
use crate::text::revert_marker_vec;
use crate::text::symbol_xnft;
use crate::text::symbol_xnft_vec;
use crate::token_id::fallback_token_id;
use crate::token_id::generate_token_id_from_data;

verus! {

/// Display metadata of default and best-effort inbound messages.
pub open spec fn default_metadata_view(name: Seq<u8>) -> MetadataView {
    MetadataView {
        name: name,
        symbol: symbol_xnft(),
        uri: default_uri(),
        seller_fee_basis_points: 0u16,
        creators: None,
        collection: None,
    }
}

/// The message assumed for an empty payload: an inbound transfer with the
/// zero identity and placeholder metadata.
pub open spec fn default_message_view(now: u64) -> MessageView {
    MessageView {
        message_type: CrossChainMessageType::Transfer,
        token_id: zero_seq(32),
        source_chain_id: 1u64,
        destination_chain_id: SOLANA_CHAIN_ID,
        sender: zero_seq(20),
        recipient: zero_seq(32),
        metadata: default_metadata_view(default_name()),
        timestamp: now,
    }
}

/// Width in bytes of the UTF-8 character introduced by leading byte `b`
/// (1 for a continuation byte, which never starts a character in valid
/// UTF-8).
pub open spec fn utf8_char_width(b: u8) -> int {
    if b < 0xc0 {
        1
    } else if b < 0xe0 {
        2
    } else if b < 0xf0 {
        3
    } else {
        4
    }
}

/// Byte length of the first (up to) `k` UTF-8 characters of `data`
/// starting at `from`: each step consumes one leading byte and its
/// continuation bytes, never past the end.  On valid UTF-8 (the only
/// payloads the fallback accepts) this is exactly the character
/// segmentation.
pub open spec fn utf8_prefix_len(data: Seq<u8>, k: nat, from: int) -> int
    decreases k,
{
    if k == 0 || from >= data.len() {
        from
    } else {
        let next = from + utf8_char_width(data[from]);
        utf8_prefix_len(
            data,
            (k - 1) as nat,
            if next <= data.len() {
                next
            } else {
                data.len() as int
            },
        )
    }
}

/// The character prefix stays within the payload and takes at most four
/// bytes per character.
pub proof fn lemma_utf8_prefix_len_bounds(data: Seq<u8>, k: nat, from: int)
    requires
        0 <= from <= data.len(),
    ensures
        from <= utf8_prefix_len(data, k, from) <= data.len(),
        utf8_prefix_len(data, k, from) <= from + 4 * k,
    decreases k,
{
    if k == 0 || from >= data.len() {
    } else {
        let next = from + utf8_char_width(data[from]);
        if next <= data.len() {
            lemma_utf8_prefix_len_bounds(data, (k - 1) as nat, next);
        } else {
            lemma_utf8_prefix_len_bounds(data, (k - 1) as nat, data.len() as int);
        }
    }
}

/// Byte length of the first (up to) `k` UTF-8 characters of `data`.
fn utf8_prefix_take(data: &Vec<u8>, k: usize) -> (r: usize)
    ensures
        r as int == utf8_prefix_len(data@, k as nat, 0),
        r <= data@.len(),
{
    let mut from: usize = 0;
    let mut remaining: usize = k;
    while remaining > 0 && from < data.len()
        invariant
            from <= data@.len(),
            utf8_prefix_len(data@, k as nat, 0) == utf8_prefix_len(
                data@,
                remaining as nat,
                from as int,
            ),
        decreases remaining,
    {
        let b = data[from];
        let width: usize = if b < 0xc0 {
            1
        } else if b < 0xe0 {
            2
        } else if b < 0xf0 {
            3
        } else {
            4
        };
        proof {
            assert(width as int == utf8_char_width(data@[from as int]));
        }
        let next: usize = if data.len() - from >= width {
            from + width
        } else {
            data.len()
        };
        proof {
            assert(utf8_prefix_len(data@, remaining as nat, from as int) == utf8_prefix_len(
                data@,
                (remaining - 1) as nat,
                next as int,
            ));
        }
        from = next;
        remaining = remaining - 1;
    }
    proof {
        assert(utf8_prefix_len(data@, remaining as nat, from as int) == from as int);
    }
    from
}

/// The best-effort message synthesized from an opaque payload: a transfer
/// with an identity derived from the payload, and a name quoting its first
/// characters.
pub open spec fn fallback_message_view(data: Seq<u8>, now: u64, slot: u64) -> MessageView {
    let shown = data.subrange(0, utf8_prefix_len(data, 20, 0));
    MessageView {
        message_type: CrossChainMessageType::Transfer,
        token_id: fallback_token_id(data, now, slot),
        source_chain_id: 1u64,
        destination_chain_id: SOLANA_CHAIN_ID,
        sender: zero_seq(20),
        recipient: zero_seq(32),
        metadata: default_metadata_view(fallback_name_prefix() + shown),
        timestamp: now,
    }
}

/// How an inbound payload is read, and with what trust: a structured
/// encoding decodes exactly (trusted, `true`); an empty or unstructured
/// UTF-8 payload becomes a clearly marked best-effort message (`false`);
/// anything else is rejected.
pub open spec fn on_call_expected(data: Seq<u8>, now: u64, slot: u64) -> Option<
    (MessageView, bool),
> {
    if data.len() == 0 {
        Some((default_message_view(now), false))
    } else {
        match decode_spec(data) {
            Some(m) => Some((m, true)),
            None => if utf8_ok(data) {
                Some((fallback_message_view(data, now, slot), false))
            } else {
                None
            },
        }
    }
}

/// A payload that carries the explicit halt marker as UTF-8 text.
pub open spec fn revert_marked(data: Seq<u8>) -> bool {
    utf8_ok(data) && contains_seq(data, revert_marker())
}

/// Parses an inbound payload per [`on_call_expected`]: the returned flag
/// says whether the message was structured (trusted) or synthesized
/// (best-effort, lower trust).
pub fn parse_cross_chain_message(data: &Vec<u8>, now: u64, slot: u64) -> (r: Result<
    (CrossChainMessage, bool),
    UniversalNftError,
>)
    ensures
        match r {
            Ok(p) => on_call_expected(data@, now, slot) == Some((p.0@, p.1)) && msg_wf(p.0@),
            Err(e) => on_call_expected(data@, now, slot) is None && e
                == UniversalNftError::InvalidDataFormat,
        },
{
    if data.len() == 0 {
        let message = CrossChainMessage {
            message_type: CrossChainMessageType::Transfer,
            token_id: zero_bytes(32),
            source_chain_id: 1,
            destination_chain_id: SOLANA_CHAIN_ID,
            sender: zero_bytes(20),
            recipient: zero_bytes(32),
            metadata: NftMetadata {
                name: default_name_vec(),
                symbol: symbol_xnft_vec(),
                uri: default_uri_vec(),
                seller_fee_basis_points: 0,
                creators: None,
                collection: None,
            },
            timestamp: now,
        };
        proof {
            assert(message@ =~= default_message_view(now));
        }
        return Ok((message, false));
    }
    match decode(data) {
        Ok(m) => Ok((m, true)),
        Err(_) => {
            if check_utf8(data) {
                let token_id = generate_token_id_from_data(data, now, slot);
                let mut name = fallback_name_prefix_vec();
                let shown_len: usize = utf8_prefix_take(data, 20);
                proof {
                    lemma_utf8_prefix_len_bounds(data@, 20nat, 0);
                }
                let mut i: usize = 0;
                proof {
                    assert(name@ =~= fallback_name_prefix() + data@.subrange(0, 0));
                }
                while i < shown_len
                    invariant
                        i <= shown_len,
                        shown_len <= data@.len(),
                        name@ == fallback_name_prefix() + data@.subrange(0, i as int),
                    decreases shown_len - i,
                {
                    name.push(data[i]);
                    proof {
                        assert(name@ =~= fallback_name_prefix() + data@.subrange(0, i + 1));
                    }
                    i = i + 1;
                }
                let message = CrossChainMessage {
                    message_type: CrossChainMessageType::Transfer,
                    token_id: token_id,
                    source_chain_id: 1,
                    destination_chain_id: SOLANA_CHAIN_ID,
                    sender: zero_bytes(20),
                    recipient: zero_bytes(32),
                    metadata: NftMetadata {
                        name: name,
                        symbol: symbol_xnft_vec(),
                        uri: default_uri_vec(),
                        seller_fee_basis_points: 0,
                        creators: None,
                        collection: None,
                    },
                    timestamp: now,
                };
                proof {
                    assert(message@ =~= fallback_message_view(data@, now, slot));
                }
                Ok((message, false))
            } else {
                Err(UniversalNftError::InvalidDataFormat)
            }
        },
    }
}

/// Accounts for an inbound first-time creation.
pub fn handle_cross_chain_mint(program_state: &mut ProgramState, message: &CrossChainMessage)
    requires
        old(program_state).total_receives < u64::MAX,
    ensures
        final(program_state).total_receives == old(program_state).total_receives + 1,
        final(program_state).authority@ == old(program_state).authority@,
        final(program_state).gateway@ == old(program_state).gateway@,
        final(program_state).next_token_id == old(program_state).next_token_id,
        final(program_state).total_minted == old(program_state).total_minted,
        final(program_state).total_transfers == old(program_state).total_transfers,
        final(program_state).version == old(program_state).version,
        final(program_state).bump == old(program_state).bump,
{
    program_state.total_receives = program_state.total_receives + 1;
}

/// Accounts for an inbound transfer of an existing identity.
pub fn handle_cross_chain_transfer(program_state: &mut ProgramState, message: &CrossChainMessage)
    requires
        old(program_state).total_receives < u64::MAX,
    ensures
        final(program_state).total_receives == old(program_state).total_receives + 1,
        final(program_state).authority@ == old(program_state).authority@,
        final(program_state).gateway@ == old(program_state).gateway@,
        final(program_state).next_token_id == old(program_state).next_token_id,
        final(program_state).total_minted == old(program_state).total_minted,
        final(program_state).total_transfers == old(program_state).total_transfers,
        final(program_state).version == old(program_state).version,
        final(program_state).bump == old(program_state).bump,
{
    program_state.total_receives = program_state.total_receives + 1;
}

/// Accounts for an inbound revert notification routed through the normal
/// delivery path.
pub fn handle_cross_chain_revert(program_state: &mut ProgramState, message: &CrossChainMessage)
    requires
        old(program_state).total_receives < u64::MAX,
    ensures
        final(program_state).total_receives == old(program_state).total_receives + 1,
        final(program_state).authority@ == old(program_state).authority@,
        final(program_state).gateway@ == old(program_state).gateway@,
        final(program_state).next_token_id == old(program_state).next_token_id,
        final(program_state).total_minted == old(program_state).total_minted,
        final(program_state).total_transfers == old(program_state).total_transfers,
        final(program_state).version == old(program_state).version,
        final(program_state).bump == old(program_state).bump,
{
    program_state.total_receives = program_state.total_receives + 1;
}

/// Outcome of a successful inbound delivery.
pub struct OnCallOutcome {
    /// The message as parsed.
    pub message: CrossChainMessage,
    /// Whether the payload decoded as a structured message; a synthesized
    /// message deserves lower trust.
    pub well_formed: bool,
    /// Half of the attached value, to be forwarded by the caller as part
    /// of the same atomic operation.
    pub forwarded_amount: u64,
}

/// Entry point for gateway-delivered calls.  The calling program must be
/// exactly the trusted gateway recorded in the configuration, whatever the
/// payload holds; payloads that cannot be read at all, an unsupported
/// message kind, and payloads carrying the explicit halt marker are
/// rejected.  On any rejection nothing changes.
pub fn on_call(
    program_state: &mut ProgramState,
    caller: &Vec<u8>,
    amount: u64,
    sender: &Vec<u8>,
    data: &Vec<u8>,
    now: u64,
    slot: u64,
) -> (r: Result<OnCallOutcome, UniversalNftError>)
    requires
        old(program_state).wf(),
        caller@.len() == 32,
        sender@.len() == 20,
        old(program_state).total_receives < u64::MAX,
    ensures
        caller@ != old(program_state).gateway@ ==> (r matches Err(e) && e
            == UniversalNftError::InvalidGatewayCaller),
        r is Err ==> *final(program_state) == *old(program_state),
        r is Ok <==> (caller@ == old(program_state).gateway@ && (on_call_expected(
            data@,
            now,
            slot,
        ) matches Some(p) && p.0.message_type != CrossChainMessageType::Burn) && !revert_marked(
            data@,
        )),
        match r {
            Ok(o) => {
                &&& on_call_expected(data@, now, slot) == Some((o.message@, o.well_formed))
                &&& msg_wf(o.message@)
                &&& o.forwarded_amount == amount / 2
                &&& final(program_state).total_receives == old(program_state).total_receives + 1
                &&& final(program_state).authority@ == old(program_state).authority@
                &&& final(program_state).gateway@ == old(program_state).gateway@
                &&& final(program_state).next_token_id == old(program_state).next_token_id
                &&& final(program_state).total_minted == old(program_state).total_minted
                &&& final(program_state).total_transfers == old(program_state).total_transfers
                &&& final(program_state).wf()
            },
            Err(e) => if caller@ != old(program_state).gateway@ {
                e == UniversalNftError::InvalidGatewayCaller
            } else if on_call_expected(data@, now, slot) is None {
                e == UniversalNftError::InvalidDataFormat
            } else if on_call_expected(data@, now, slot) matches Some(p) && p.0.message_type
                == CrossChainMessageType::Burn {
                e == UniversalNftError::InvalidCrossChainMessage
            } else {
                e == UniversalNftError::RevertMessage
            },
        },
{
    if !bytes_eq(caller, &program_state.gateway) {
        return Err(UniversalNftError::InvalidGatewayCaller);
    }
    let parsed = parse_cross_chain_message(data, now, slot);
    match parsed {
        Err(e) => Err(e),
        Ok((message, well_formed)) => {
            match message.message_type {
                CrossChainMessageType::Burn => {
                    return Err(UniversalNftError::InvalidCrossChainMessage);
                },
                _ => {},
            }
            let marker = revert_marker_vec();
            if check_utf8(data) && contains_bytes(data, &marker) {
                return Err(UniversalNftError::RevertMessage);
            }
            match message.message_type {
                CrossChainMessageType::Mint => {
                    handle_cross_chain_mint(program_state, &message);
                },
                CrossChainMessageType::Transfer => {
                    handle_cross_chain_transfer(program_state, &message);
                },
                _ => {
                    handle_cross_chain_revert(program_state, &message);
                },
            }
            Ok(OnCallOutcome { message: message, well_formed: well_formed, forwarded_amount: amount / 2 })
        },
    }
}

} // verus!
