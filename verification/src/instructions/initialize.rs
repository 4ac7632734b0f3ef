//! Creates the configuration account once, after the program is deployed;
//! the wallet that signs becomes the admin.
use vstd::prelude::*;
use crate::error::TrazLogError;
use crate::state::{GlobalState, Pubkey};

verus! {

/// The accounts that initialization writes.
pub struct Initialize {
    pub admin: Pubkey,
    /// Created by the instruction; written.
    pub global_state: GlobalState,
}

/// The configuration right after initialization by `admin`: no incident yet,
/// not paused.
pub open spec fn initial_state(admin: Pubkey, bump: u8) -> GlobalState {
    GlobalState { next_incident_id: 0, is_paused: false, admin, bump }
}

/// Writes the initial configuration, with `bump` the bump of its address.
pub fn handler(ctx: &mut Initialize, bump: u8) -> (r: Result<(), TrazLogError>)
    ensures
        r == Ok::<(), TrazLogError>(()),
        final(ctx).admin == old(ctx).admin,
        final(ctx).global_state == initial_state(old(ctx).admin, bump),
{
    ctx.global_state.next_incident_id = 0;
    ctx.global_state.is_paused = false;
    ctx.global_state.admin = ctx.admin;
    ctx.global_state.bump = bump;
    Ok(())
}

} // verus!
