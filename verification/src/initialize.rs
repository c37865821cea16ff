//! Bootstrap of the program configuration: create-once, no delete, mutated
//! afterwards only through the administrative entry points.

use vstd::prelude::*;

use crate::bytes_util::copy_bytes;
use crate::bytes_util::is_zero_bytes;
use crate::errors::UniversalNftError;
use crate::state::ProgramState;
use crate::state::all_zero;

verus! {

/// Append-only audit record of the bootstrap.
pub struct ProgramInitializedEvent {
    pub authority: Vec<u8>,
    pub gateway: Vec<u8>,
    pub version: u8,
    pub timestamp: u64,
}

/// Creates the configuration singleton.  The zero address is rejected as a
/// gateway; afterwards the counters start at their initial values and the
/// sequence counter at one.
pub fn initialize(authority: &Vec<u8>, gateway: &Vec<u8>, bump: u8, now: u64) -> (r: Result<
    (ProgramState, ProgramInitializedEvent),
    UniversalNftError,
>)
    requires
        authority@.len() == 32,
        gateway@.len() == 32,
    ensures
        r is Ok <==> !all_zero(gateway@),
        match r {
            Ok(p) => {
                &&& p.0.authority@ == authority@
                &&& p.0.gateway@ == gateway@
                &&& p.0.next_token_id == 1
                &&& p.0.total_minted == 0
                &&& p.0.total_transfers == 0
                &&& p.0.total_receives == 0
                &&& p.0.version == 1
                &&& p.0.bump == bump
                &&& p.0.wf()
                &&& p.1.authority@ == authority@
                &&& p.1.gateway@ == gateway@
                &&& p.1.version == 1
                &&& p.1.timestamp == now
            },
            Err(e) => e == UniversalNftError::InvalidGateway,
        },
{
    if is_zero_bytes(gateway) {
        return Err(UniversalNftError::InvalidGateway);
    }
    let program_state = ProgramState {
        authority: copy_bytes(authority),
        gateway: copy_bytes(gateway),
        next_token_id: 1,
        total_minted: 0,
        total_transfers: 0,
        total_receives: 0,
        version: 1,
        bump: bump,
    };
    let event = ProgramInitializedEvent {
        authority: copy_bytes(authority),
        gateway: copy_bytes(gateway),
        version: 1,
        timestamp: now,
    };
    Ok((program_state, event))
}

} // verus!
