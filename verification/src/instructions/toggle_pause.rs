//! The admin pauses or resumes the whole system.
use vstd::prelude::*;
use crate::error::TrazLogError;
use crate::state::{GlobalState, Pubkey};

verus! {

/// The accounts that a pause toggle reads and writes.
pub struct TogglePause {
    pub signer: Pubkey,
    /// Written.
    pub global_state: GlobalState,
}

impl TogglePause {
    /// The error with which the program refuses the toggle; `None` when it
    /// toggles. The toggle itself is never blocked by the pause.
    pub open spec fn refusal(self) -> Option<TrazLogError> {
        if self.global_state.admin != self.signer {
            Some(TrazLogError::Unauthorized)
        } else {
            None
        }
    }
}

/// Flips the pause flag when the signer is the admin; otherwise nothing changes.
pub fn handler(ctx: &mut TogglePause) -> (r: Result<(), TrazLogError>)
    ensures
        match old(ctx).refusal() {
            Some(e) => r == Err::<(), TrazLogError>(e) && *final(ctx) == *old(ctx),
            None => {
                &&& r == Ok::<(), TrazLogError>(())
                &&& final(ctx).signer == old(ctx).signer
                &&& final(ctx).global_state == GlobalState {
                    is_paused: !old(ctx).global_state.is_paused,
                    ..old(ctx).global_state
                }
            },
        },
{
    if !(ctx.global_state.admin == ctx.signer) {
        return Err(TrazLogError::Unauthorized);
    }
    ctx.global_state.is_paused = !ctx.global_state.is_paused;
    Ok(())
}

} // verus!
