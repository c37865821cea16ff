//! The validation and accounting step of a plain local mint: the token and
//! its display metadata are created by the external token/metadata service
//! around this step.

use vstd::prelude::*;

use crate::errors::UniversalNftError;
use crate::state::NftCreator;
use crate::state::ProgramState;
use crate::state::opt_creators_view;
use crate::state::shares_ok;
use crate::state::validate_creator_shares;

verus! {

/// The inputs a plain local mint accepts: a non-empty name of at most 32
/// bytes, a non-empty symbol of at most 10 bytes, and creator shares that
/// sum to at most 100.
pub open spec fn mint_inputs_ok(
    name: Seq<u8>,
    symbol: Seq<u8>,
    creators: Option<Seq<crate::state::CreatorView>>,
) -> bool {
    &&& name.len() > 0
    &&& symbol.len() > 0
    &&& name.len() <= 32
    &&& symbol.len() <= 10
    &&& shares_ok(creators)
}

/// Validates the display inputs of a plain local mint and, on success,
/// advances the sequence and mint counters; on rejection nothing changes.
pub fn mint_nft_simple(
    program_state: &mut ProgramState,
    name: &Vec<u8>,
    symbol: &Vec<u8>,
    creators: &Option<Vec<NftCreator>>,
) -> (r: Result<(), UniversalNftError>)
    requires
        old(program_state).next_token_id < u64::MAX,
        old(program_state).total_minted < u64::MAX,
    ensures
        r is Ok <==> mint_inputs_ok(name@, symbol@, opt_creators_view(*creators)),
        match r {
            Ok(u) => {
                &&& final(program_state).next_token_id == old(program_state).next_token_id + 1
                &&& final(program_state).total_minted == old(program_state).total_minted + 1
                &&& final(program_state).authority@ == old(program_state).authority@
                &&& final(program_state).gateway@ == old(program_state).gateway@
                &&& final(program_state).total_transfers == old(program_state).total_transfers
                &&& final(program_state).total_receives == old(program_state).total_receives
                &&& final(program_state).version == old(program_state).version
                &&& final(program_state).bump == old(program_state).bump
            },
            Err(e) => {
                &&& *final(program_state) == *old(program_state)
                &&& e == UniversalNftError::InvalidInstructionData
            },
        },
{
    if name.len() == 0 {
        return Err(UniversalNftError::InvalidInstructionData);
    }
    if symbol.len() == 0 {
        return Err(UniversalNftError::InvalidInstructionData);
    }
    if name.len() > 32 {
        return Err(UniversalNftError::InvalidInstructionData);
    }
    if symbol.len() > 10 {
        return Err(UniversalNftError::InvalidInstructionData);
    }
    if !validate_creator_shares(creators) {
        return Err(UniversalNftError::InvalidInstructionData);
    }
    program_state.next_token_id = program_state.next_token_id + 1;
    program_state.total_minted = program_state.total_minted + 1;
    Ok(())
}

} // verus!
