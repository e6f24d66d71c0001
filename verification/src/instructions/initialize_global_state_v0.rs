//! Setting up the global state.
use vstd::prelude::*;
use crate::accounts::Account;
use crate::errors::ErrorCode;
use crate::pubkey::Pubkey;
use crate::state::GlobalStateV0;

verus! {

/// The bump seeds of the addresses that the instruction derives.
#[derive(Clone, Copy, Debug, PartialEq, Eq, Default)]
pub struct InitializeGlobalStateV0Bumps {
    pub global_state: u8,
    pub queue_authority: u8,
}

/// The accounts with which the global state is set up.
#[derive(Clone, Copy, Debug, PartialEq, Eq)]
pub struct InitializeGlobalStateV0 {
    pub payer: Pubkey,
    pub global_state: Account<GlobalStateV0>,
    pub queue_authority: Pubkey,
    pub task_queue: Pubkey,
    pub task_queue_authority: Pubkey,
    pub authority: Pubkey,
    pub system_program: Pubkey,
    pub bumps: InitializeGlobalStateV0Bumps,
}

impl InitializeGlobalStateV0 {
    /// The accounts once the global state binds the authority to the task
    /// queue.
    pub open spec fn initialized(self) -> InitializeGlobalStateV0 {
        InitializeGlobalStateV0 {
            global_state: Account {
                data: GlobalStateV0 {
                    authority: self.authority,
                    task_queue: self.task_queue,
                    bump: self.bumps.global_state,
                },
                ..self.global_state
            },
            ..self
        }
    }
}

/// Sets up the global state.
pub fn handler(ctx: &mut InitializeGlobalStateV0) -> (r: Result<(), ErrorCode>)
    ensures
        r is Ok,
        *final(ctx) == old(ctx).initialized(),
{
    ctx.global_state.data = GlobalStateV0 {
        authority: ctx.authority,
        task_queue: ctx.task_queue,
        bump: ctx.bumps.global_state,
    };
    Ok(())
}

} // verus!
