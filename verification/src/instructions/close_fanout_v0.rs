//! Closing a fanout that has no token inflow left.
use vstd::prelude::*;
use crate::accounts::Account;
use crate::errors::ErrorCode;
use crate::pubkey::Pubkey;
use crate::state::FanoutV0;

verus! {

/// The accounts with which a fanout is closed.
#[derive(Clone, Debug, PartialEq, Eq)]
pub struct CloseFanoutV0 {
    pub fanout: Account<FanoutV0>,
    pub authority: Pubkey,
    pub cron_job: Pubkey,
    pub queue_authority: Pubkey,
    pub user_cron_jobs: Pubkey,
    pub cron_job_name_mapping: Pubkey,
    pub task_return_account_1: Pubkey,
    pub task_return_account_2: Pubkey,
    pub cron_program: Pubkey,
    pub system_program: Pubkey,
}

/// Closes a fanout: where this succeeds, the caller closes its cron job.
/// A fanout with token inflows cannot be closed.
pub fn handler(ctx: &CloseFanoutV0) -> (r: Result<(), ErrorCode>)
    ensures
        match r {
            Ok(()) => ctx.fanout.data.num_inflows == 0,
            Err(e) => ctx.fanout.data.num_inflows != 0 && e
                == ErrorCode::CannotCloseFanoutWithInflows,
        },
{
    if ctx.fanout.data.num_inflows == 0 {
        Ok(())
    } else {
        Err(ErrorCode::CannotCloseFanoutWithInflows)
    }
}

} // verus!
