//! Administrative update of the trusted gateway address.

use vstd::prelude::*;

use crate::bytes_util::bytes_eq;
use crate::bytes_util::copy_bytes;
use crate::bytes_util::is_zero_bytes;
use crate::errors::UniversalNftError;
use crate::state::ProgramState;
use crate::state::all_zero;

verus! {

/// Append-only audit record of a gateway change.
pub struct GatewayUpdatedEvent {
    pub old_gateway: Vec<u8>,
    pub new_gateway: Vec<u8>,
    pub authority: Vec<u8>,
}

/// Replaces the trusted gateway address.  Only the stored authority may
/// call this, and the zero address is rejected; on any error nothing
/// changes.
pub fn update_gateway(
    program_state: &mut ProgramState,
    caller: &Vec<u8>,
    new_gateway: &Vec<u8>,
) -> (r: Result<GatewayUpdatedEvent, UniversalNftError>)
    requires
        old(program_state).wf(),
        caller@.len() == 32,
        new_gateway@.len() == 32,
    ensures
        r is Ok <==> (caller@ == old(program_state).authority@ && !all_zero(new_gateway@)),
        match r {
            Ok(ev) => {
                &&& final(program_state).gateway@ == new_gateway@
                &&& final(program_state).authority@ == old(program_state).authority@
                &&& final(program_state).next_token_id == old(program_state).next_token_id
                &&& final(program_state).total_minted == old(program_state).total_minted
                &&& final(program_state).total_transfers == old(program_state).total_transfers
                &&& final(program_state).total_receives == old(program_state).total_receives
                &&& final(program_state).version == old(program_state).version
                &&& final(program_state).bump == old(program_state).bump
                &&& final(program_state).wf()
                &&& ev.old_gateway@ == old(program_state).gateway@
                &&& ev.new_gateway@ == new_gateway@
                &&& ev.authority@ == caller@
            },
            Err(e) => {
                &&& *final(program_state) == *old(program_state)
                &&& if caller@ != old(program_state).authority@ {
                    e == UniversalNftError::Unauthorized
                } else {
                    e == UniversalNftError::InvalidGateway
                }
            },
        },
{
    if !bytes_eq(caller, &program_state.authority) {
        return Err(UniversalNftError::Unauthorized);
    }
    if is_zero_bytes(new_gateway) {
        return Err(UniversalNftError::InvalidGateway);
    }
    let old_gateway = copy_bytes(&program_state.gateway);
    program_state.gateway = copy_bytes(new_gateway);
    Ok(
        GatewayUpdatedEvent {
            old_gateway: old_gateway,
            new_gateway: copy_bytes(new_gateway),
            authority: copy_bytes(caller),
        },
    )
}

} // verus!
