//! The admin, or an active member of the operational base, registers a member
//! of the brigade with a role.
use vstd::prelude::*;
use crate::error::TrazLogError;
use crate::events::PersonnelRegistered;
use crate::state::{GlobalState, PersonnelAccount, Pubkey, Role};

verus! {

/// The accounts that a registration of personnel reads and writes.
pub struct RegisterPersonnel {
    pub signer: Pubkey,
    pub global_state: GlobalState,
    /// The signer's own personnel account, where there is one: the admin
    /// needs none.
    pub signer_personnel: Option<PersonnelAccount>,
    /// Created by the instruction; written.
    pub new_personnel: PersonnelAccount,
    /// The wallet being registered.
    pub wallet: Pubkey,
}

/// Whether the signer's personnel account lets it register personnel: an
/// active member of the operational base.
pub open spec fn is_operational_base(signer_personnel: Option<PersonnelAccount>) -> bool {
    match signer_personnel {
        Some(p) => p.role == Role::OperationalBase && p.is_active,
        None => false,
    }
}

impl RegisterPersonnel {
    /// The error with which the program refuses the registration, checked in
    /// this order; `None` when it registers.
    pub open spec fn refusal(self) -> Option<TrazLogError> {
        if self.global_state.is_paused {
            Some(TrazLogError::SystemPaused)
        } else if !(self.global_state.admin == self.signer || is_operational_base(
            self.signer_personnel,
        )) {
            Some(TrazLogError::Unauthorized)
        } else {
            None
        }
    }

    /// The accounts after the registration: the new member is active, with
    /// the given role.
    pub open spec fn registered(self, name: String, specialty: String, role: Role, bump: u8) -> RegisterPersonnel {
        RegisterPersonnel {
            new_personnel: PersonnelAccount {
                wallet: self.wallet,
                name,
                specialty,
                is_active: true,
                role,
                bump,
                ..self.new_personnel
            },
            ..self
        }
    }
}

/// Checks the signer's authority and fills the new personnel account, with
/// `bump` the bump of its address; on a refusal nothing changes.
pub fn handler(
    ctx: &mut RegisterPersonnel,
    name: String,
    specialty: String,
    role: Role,
    bump: u8,
) -> (r: Result<PersonnelRegistered, TrazLogError>)
    ensures
        match old(ctx).refusal() {
            Some(e) => r == Err::<PersonnelRegistered, TrazLogError>(e) && *final(ctx) == *old(ctx),
            None => {
                &&& r == Ok::<PersonnelRegistered, TrazLogError>(
                    PersonnelRegistered { wallet: old(ctx).wallet, role },
                )
                &&& *final(ctx) == old(ctx).registered(name, specialty, role, bump)
            },
        },
{
    if ctx.global_state.is_paused {
        return Err(TrazLogError::SystemPaused);
    }
    let is_admin = ctx.global_state.admin == ctx.signer;
    let is_operational_base = match &ctx.signer_personnel {
        Some(p) => p.role == Role::OperationalBase && p.is_active,
        None => false,
    };
    if !(is_admin || is_operational_base) {
        return Err(TrazLogError::Unauthorized);
    }
    ctx.new_personnel.wallet = ctx.wallet;
    ctx.new_personnel.name = name;
    ctx.new_personnel.specialty = specialty;
    ctx.new_personnel.is_active = true;
    ctx.new_personnel.role = role;
    ctx.new_personnel.bump = bump;
    Ok(PersonnelRegistered { wallet: ctx.new_personnel.wallet, role })
}

} // verus!
