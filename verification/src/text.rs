//! The fixed byte strings of the protocol: display-metadata text, revert
//! payload tags, and the diagnostic halt marker.  Each constant has a spec
//! form (a byte sequence) and a builder returning exactly that sequence.

use vstd::prelude::*;

verus! {

/// Display-name prefix of a transferred asset.  (ASCII for `Universal NFT #`.)
pub open spec fn name_prefix() -> Seq<u8> {
    seq![85u8, 110u8, 105u8, 118u8, 101u8, 114u8, 115u8, 97u8, 108u8, 32u8, 78u8, 70u8, 84u8, 32u8, 35u8]
}

/// Builds [`name_prefix`].
pub fn name_prefix_vec() -> (r: Vec<u8>)
    ensures
        r@ == name_prefix(),
{
    let v: Vec<u8> = vec![85u8, 110u8, 105u8, 118u8, 101u8, 114u8, 115u8, 97u8, 108u8, 32u8, 78u8, 70u8, 84u8, 32u8, 35u8];
    proof {
        assert(v@ =~= name_prefix());
    }
    v
}

/// Symbol used for transferred assets.  (ASCII for `UNFT`.)
pub open spec fn symbol_unft() -> Seq<u8> {
    seq![85u8, 78u8, 70u8, 84u8]
}

/// Builds [`symbol_unft`].
pub fn symbol_unft_vec() -> (r: Vec<u8>)
    ensures
        r@ == symbol_unft(),
{
    let v: Vec<u8> = vec![85u8, 78u8, 70u8, 84u8];
    proof {
        assert(v@ =~= symbol_unft());
    }
    v
}

/// Prefix of the metadata URI of a transferred asset.  (ASCII for `https://api.universalnft.io/metadata/`.)
pub open spec fn uri_prefix() -> Seq<u8> {
    seq![104u8, 116u8, 116u8, 112u8, 115u8, 58u8, 47u8, 47u8, 97u8, 112u8, 105u8, 46u8, 117u8, 110u8, 105u8, 118u8, 101u8, 114u8, 115u8, 97u8, 108u8, 110u8, 102u8, 116u8, 46u8, 105u8, 111u8, 47u8, 109u8, 101u8, 116u8, 97u8, 100u8, 97u8, 116u8, 97u8, 47u8]
}

/// Builds [`uri_prefix`].
pub fn uri_prefix_vec() -> (r: Vec<u8>)
    ensures
        r@ == uri_prefix(),
{
    let v: Vec<u8> = vec![104u8, 116u8, 116u8, 112u8, 115u8, 58u8, 47u8, 47u8, 97u8, 112u8, 105u8, 46u8, 117u8, 110u8, 105u8, 118u8, 101u8, 114u8, 115u8, 97u8, 108u8, 110u8, 102u8, 116u8, 46u8, 105u8, 111u8, 47u8, 109u8, 101u8, 116u8, 97u8, 100u8, 97u8, 116u8, 97u8, 47u8];
    proof {
        assert(v@ =~= uri_prefix());
    }
    v
}

/// Suffix of the metadata URI of a transferred asset.  (ASCII for `.json`.)
pub open spec fn uri_suffix() -> Seq<u8> {
    seq![46u8, 106u8, 115u8, 111u8, 110u8]
}

/// Builds [`uri_suffix`].
pub fn uri_suffix_vec() -> (r: Vec<u8>)
    ensures
        r@ == uri_suffix(),
{
    let v: Vec<u8> = vec![46u8, 106u8, 115u8, 111u8, 110u8];
    proof {
        assert(v@ =~= uri_suffix());
    }
    v
}

/// Leading tag of a revert payload.  (ASCII for `REVERT_NFT_TRANSFER|token_id:`.)
pub open spec fn revert_tag() -> Seq<u8> {
    seq![82u8, 69u8, 86u8, 69u8, 82u8, 84u8, 95u8, 78u8, 70u8, 84u8, 95u8, 84u8, 82u8, 65u8, 78u8, 83u8, 70u8, 69u8, 82u8, 124u8, 116u8, 111u8, 107u8, 101u8, 110u8, 95u8, 105u8, 100u8, 58u8]
}

/// Builds [`revert_tag`].
pub fn revert_tag_vec() -> (r: Vec<u8>)
    ensures
        r@ == revert_tag(),
{
    let v: Vec<u8> = vec![82u8, 69u8, 86u8, 69u8, 82u8, 84u8, 95u8, 78u8, 70u8, 84u8, 95u8, 84u8, 82u8, 65u8, 78u8, 83u8, 70u8, 69u8, 82u8, 124u8, 116u8, 111u8, 107u8, 101u8, 110u8, 95u8, 105u8, 100u8, 58u8];
    proof {
        assert(v@ =~= revert_tag());
    }
    v
}

/// Separator before the owner in a revert payload.  (ASCII for `|original_owner:`.)
pub open spec fn owner_sep() -> Seq<u8> {
    seq![124u8, 111u8, 114u8, 105u8, 103u8, 105u8, 110u8, 97u8, 108u8, 95u8, 111u8, 119u8, 110u8, 101u8, 114u8, 58u8]
}

/// Builds [`owner_sep`].
pub fn owner_sep_vec() -> (r: Vec<u8>)
    ensures
        r@ == owner_sep(),
{
    let v: Vec<u8> = vec![124u8, 111u8, 114u8, 105u8, 103u8, 105u8, 110u8, 97u8, 108u8, 95u8, 111u8, 119u8, 110u8, 101u8, 114u8, 58u8];
    proof {
        assert(v@ =~= owner_sep());
    }
    v
}

/// Separator before the timestamp in a revert payload.  (ASCII for `|timestamp:`.)
pub open spec fn ts_sep() -> Seq<u8> {
    seq![124u8, 116u8, 105u8, 109u8, 101u8, 115u8, 116u8, 97u8, 109u8, 112u8, 58u8]
}

/// Builds [`ts_sep`].
pub fn ts_sep_vec() -> (r: Vec<u8>)
    ensures
        r@ == ts_sep(),
{
    let v: Vec<u8> = vec![124u8, 116u8, 105u8, 109u8, 101u8, 115u8, 116u8, 97u8, 109u8, 112u8, 58u8];
    proof {
        assert(v@ =~= ts_sep());
    }
    v
}

/// Display name of the default inbound message.  (ASCII for `Cross-Chain NFT`.)
pub open spec fn default_name() -> Seq<u8> {
    seq![67u8, 114u8, 111u8, 115u8, 115u8, 45u8, 67u8, 104u8, 97u8, 105u8, 110u8, 32u8, 78u8, 70u8, 84u8]
}

/// Builds [`default_name`].
pub fn default_name_vec() -> (r: Vec<u8>)
    ensures
        r@ == default_name(),
{
    let v: Vec<u8> = vec![67u8, 114u8, 111u8, 115u8, 115u8, 45u8, 67u8, 104u8, 97u8, 105u8, 110u8, 32u8, 78u8, 70u8, 84u8];
    proof {
        assert(v@ =~= default_name());
    }
    v
}

/// Display-name prefix of a best-effort inbound message.  (ASCII for `Cross-Chain NFT: `.)
pub open spec fn fallback_name_prefix() -> Seq<u8> {
    seq![67u8, 114u8, 111u8, 115u8, 115u8, 45u8, 67u8, 104u8, 97u8, 105u8, 110u8, 32u8, 78u8, 70u8, 84u8, 58u8, 32u8]
}

/// Builds [`fallback_name_prefix`].
pub fn fallback_name_prefix_vec() -> (r: Vec<u8>)
    ensures
        r@ == fallback_name_prefix(),
{
    let v: Vec<u8> = vec![67u8, 114u8, 111u8, 115u8, 115u8, 45u8, 67u8, 104u8, 97u8, 105u8, 110u8, 32u8, 78u8, 70u8, 84u8, 58u8, 32u8];
    proof {
        assert(v@ =~= fallback_name_prefix());
    }
    v
}

/// Symbol used for inbound assets.  (ASCII for `XNFT`.)
pub open spec fn symbol_xnft() -> Seq<u8> {
    seq![88u8, 78u8, 70u8, 84u8]
}

/// Builds [`symbol_xnft`].
pub fn symbol_xnft_vec() -> (r: Vec<u8>)
    ensures
        r@ == symbol_xnft(),
{
    let v: Vec<u8> = vec![88u8, 78u8, 70u8, 84u8];
    proof {
        assert(v@ =~= symbol_xnft());
    }
    v
}

/// Metadata URI of default and best-effort inbound messages.  (ASCII for `https://example.com/metadata.json`.)
pub open spec fn default_uri() -> Seq<u8> {
    seq![104u8, 116u8, 116u8, 112u8, 115u8, 58u8, 47u8, 47u8, 101u8, 120u8, 97u8, 109u8, 112u8, 108u8, 101u8, 46u8, 99u8, 111u8, 109u8, 47u8, 109u8, 101u8, 116u8, 97u8, 100u8, 97u8, 116u8, 97u8, 46u8, 106u8, 115u8, 111u8, 110u8]
}

/// Builds [`default_uri`].
pub fn default_uri_vec() -> (r: Vec<u8>)
    ensures
        r@ == default_uri(),
{
    let v: Vec<u8> = vec![104u8, 116u8, 116u8, 112u8, 115u8, 58u8, 47u8, 47u8, 101u8, 120u8, 97u8, 109u8, 112u8, 108u8, 101u8, 46u8, 99u8, 111u8, 109u8, 47u8, 109u8, 101u8, 116u8, 97u8, 100u8, 97u8, 116u8, 97u8, 46u8, 106u8, 115u8, 111u8, 110u8];
    proof {
        assert(v@ =~= default_uri());
    }
    v
}

/// Reason recorded for an empty revert payload.  (ASCII for `Unknown revert reason`.)
pub open spec fn unknown_reason() -> Seq<u8> {
    seq![85u8, 110u8, 107u8, 110u8, 111u8, 119u8, 110u8, 32u8, 114u8, 101u8, 118u8, 101u8, 114u8, 116u8, 32u8, 114u8, 101u8, 97u8, 115u8, 111u8, 110u8]
}

/// Builds [`unknown_reason`].
pub fn unknown_reason_vec() -> (r: Vec<u8>)
    ensures
        r@ == unknown_reason(),
{
    let v: Vec<u8> = vec![85u8, 110u8, 107u8, 110u8, 111u8, 119u8, 110u8, 32u8, 114u8, 101u8, 118u8, 101u8, 114u8, 116u8, 32u8, 114u8, 101u8, 97u8, 115u8, 111u8, 110u8];
    proof {
        assert(v@ =~= unknown_reason());
    }
    v
}

/// Reason recorded for a structured revert payload.  (ASCII for `Structured revert`.)
pub open spec fn structured_reason() -> Seq<u8> {
    seq![83u8, 116u8, 114u8, 117u8, 99u8, 116u8, 117u8, 114u8, 101u8, 100u8, 32u8, 114u8, 101u8, 118u8, 101u8, 114u8, 116u8]
}

/// Builds [`structured_reason`].
pub fn structured_reason_vec() -> (r: Vec<u8>)
    ensures
        r@ == structured_reason(),
{
    let v: Vec<u8> = vec![83u8, 116u8, 114u8, 117u8, 99u8, 116u8, 117u8, 114u8, 101u8, 100u8, 32u8, 114u8, 101u8, 118u8, 101u8, 114u8, 116u8];
    proof {
        assert(v@ =~= structured_reason());
    }
    v
}

/// Display-name prefix of a deposit receipt.  (ASCII for `Deposit Receipt #`.)
pub open spec fn deposit_name_prefix() -> Seq<u8> {
    seq![68u8, 101u8, 112u8, 111u8, 115u8, 105u8, 116u8, 32u8, 82u8, 101u8, 99u8, 101u8, 105u8, 112u8, 116u8, 32u8, 35u8]
}

/// Builds [`deposit_name_prefix`].
pub fn deposit_name_prefix_vec() -> (r: Vec<u8>)
    ensures
        r@ == deposit_name_prefix(),
{
    let v: Vec<u8> = vec![68u8, 101u8, 112u8, 111u8, 115u8, 105u8, 116u8, 32u8, 82u8, 101u8, 99u8, 101u8, 105u8, 112u8, 116u8, 32u8, 35u8];
    proof {
        assert(v@ =~= deposit_name_prefix());
    }
    v
}

/// Symbol used for deposit receipts.  (ASCII for `DEPOSIT`.)
pub open spec fn symbol_deposit() -> Seq<u8> {
    seq![68u8, 69u8, 80u8, 79u8, 83u8, 73u8, 84u8]
}

/// Builds [`symbol_deposit`].
pub fn symbol_deposit_vec() -> (r: Vec<u8>)
    ensures
        r@ == symbol_deposit(),
{
    let v: Vec<u8> = vec![68u8, 69u8, 80u8, 79u8, 83u8, 73u8, 84u8];
    proof {
        assert(v@ =~= symbol_deposit());
    }
    v
}

/// Metadata URI of a deposit receipt.  (ASCII for `https://universal-nft.example.com/deposit-metadata.json`.)
pub open spec fn deposit_uri() -> Seq<u8> {
    seq![104u8, 116u8, 116u8, 112u8, 115u8, 58u8, 47u8, 47u8, 117u8, 110u8, 105u8, 118u8, 101u8, 114u8, 115u8, 97u8, 108u8, 45u8, 110u8, 102u8, 116u8, 46u8, 101u8, 120u8, 97u8, 109u8, 112u8, 108u8, 101u8, 46u8, 99u8, 111u8, 109u8, 47u8, 100u8, 101u8, 112u8, 111u8, 115u8, 105u8, 116u8, 45u8, 109u8, 101u8, 116u8, 97u8, 100u8, 97u8, 116u8, 97u8, 46u8, 106u8, 115u8, 111u8, 110u8]
}

/// Builds [`deposit_uri`].
pub fn deposit_uri_vec() -> (r: Vec<u8>)
    ensures
        r@ == deposit_uri(),
{
    let v: Vec<u8> = vec![104u8, 116u8, 116u8, 112u8, 115u8, 58u8, 47u8, 47u8, 117u8, 110u8, 105u8, 118u8, 101u8, 114u8, 115u8, 97u8, 108u8, 45u8, 110u8, 102u8, 116u8, 46u8, 101u8, 120u8, 97u8, 109u8, 112u8, 108u8, 101u8, 46u8, 99u8, 111u8, 109u8, 47u8, 100u8, 101u8, 112u8, 111u8, 115u8, 105u8, 116u8, 45u8, 109u8, 101u8, 116u8, 97u8, 100u8, 97u8, 116u8, 97u8, 46u8, 106u8, 115u8, 111u8, 110u8];
    proof {
        assert(v@ =~= deposit_uri());
    }
    v
}

/// Failure reason recorded when local destruction fails.  (ASCII for `Burn failed`.)
pub open spec fn burn_failed_reason() -> Seq<u8> {
    seq![66u8, 117u8, 114u8, 110u8, 32u8, 102u8, 97u8, 105u8, 108u8, 101u8, 100u8]
}

/// Builds [`burn_failed_reason`].
pub fn burn_failed_reason_vec() -> (r: Vec<u8>)
    ensures
        r@ == burn_failed_reason(),
{
    let v: Vec<u8> = vec![66u8, 117u8, 114u8, 110u8, 32u8, 102u8, 97u8, 105u8, 108u8, 101u8, 100u8];
    proof {
        assert(v@ =~= burn_failed_reason());
    }
    v
}

/// Marker whose presence in a payload halts execution.  (ASCII for `revert`.)
pub open spec fn revert_marker() -> Seq<u8> {
    seq![114u8, 101u8, 118u8, 101u8, 114u8, 116u8]
}

/// Builds [`revert_marker`].
pub fn revert_marker_vec() -> (r: Vec<u8>)
    ensures
        r@ == revert_marker(),
{
    let v: Vec<u8> = vec![114u8, 101u8, 118u8, 101u8, 114u8, 116u8];
    proof {
        assert(v@ =~= revert_marker());
    }
    v
}

} // verus!
