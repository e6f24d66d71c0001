//! Queueing the task of a fanout's cron job again.
use vstd::prelude::*;
use crate::accounts::Account;
use crate::errors::ErrorCode;
use crate::pubkey::Pubkey;
use crate::scheduler::RequeueCronTaskArgsV0;
use crate::state::{FanoutV0, GlobalStateV0};

verus! {

/// What the caller chooses when the task is queued again.
#[derive(Clone, Copy, Debug, PartialEq, Eq)]
pub struct RequeueFanoutTaskArgsV0 {
    pub task_id: u16,
}

/// What the instructions read of a cron job: the task that it has scheduled
/// next, all zero where it has none.
#[derive(Clone, Copy, Debug, PartialEq, Eq, Default)]
pub struct CronJobV0 {
    pub next_schedule_task: Pubkey,
}

/// The accounts with which the task of a cron job is queued again.
#[derive(Clone, Debug, PartialEq, Eq)]
pub struct RequeueFanoutTaskV0 {
    pub payer: Pubkey,
    pub global_state: Account<GlobalStateV0>,
    pub fanout: Account<FanoutV0>,
    pub task_queue: Pubkey,
    pub task_queue_authority: Pubkey,
    pub queue_authority: Pubkey,
    pub cron_job: Account<CronJobV0>,
    pub task: Pubkey,
    pub task_return_account_1: Pubkey,
    pub task_return_account_2: Pubkey,
    pub tuktuk_program: Pubkey,
    pub cron_program: Pubkey,
    pub system_program: Pubkey,
}

impl RequeueFanoutTaskV0 {
    /// Anybody may queue the task where the cron job has none scheduled;
    /// else only the authority of the global state.
    pub open spec fn allowed(self) -> bool {
        ||| self.cron_job.data.next_schedule_task@ == Pubkey::zero()
        ||| self.payer == self.global_state.data.authority
    }
}

/// Queues the task of the cron job again: the caller does so with the
/// arguments that are returned.
pub fn handler(ctx: &RequeueFanoutTaskV0, args: RequeueFanoutTaskArgsV0) -> (r: Result<
    RequeueCronTaskArgsV0,
    ErrorCode,
>)
    ensures
        match r {
            Ok(cron) => ctx.allowed() && cron.task_id == args.task_id,
            Err(e) => !ctx.allowed() && e == ErrorCode::ConstraintRaw,
        },
{
    if ctx.cron_job.data.next_schedule_task.is_default() || ctx.payer.equals(
        &ctx.global_state.data.authority,
    ) {
        Ok(RequeueCronTaskArgsV0 { task_id: args.task_id })
    } else {
        Err(ErrorCode::ConstraintRaw)
    }
}

} // verus!
