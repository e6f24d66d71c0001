//! Setting up a fanout and the cron job that drives its claims.
use vstd::prelude::*;
use vstd::utf8::encode_utf8;
use crate::accounts::Account;
use crate::errors::ErrorCode;
use crate::outside::{hash, sha256};
use crate::pubkey::Pubkey;
use crate::scheduler::InitializeCronJobArgsV0;
use crate::state::{FanoutV0, GlobalStateV0};

verus! {

/// What the caller chooses for a new fanout.
#[derive(Clone, Debug, PartialEq, Eq)]
pub struct InitializeFanoutV0Args {
    pub name: String,
    pub schedule: String,
    pub total_shares: u32,
}

/// The digest of a fanout's name, from which the address of the fanout
/// derives.
pub fn hash_name(name: &str) -> (r: [u8; 32])
    ensures
        r@ == sha256(encode_utf8(name@)),
{
    hash(name.as_bytes())
}

/// The bump seeds of the addresses that the instruction derives.
#[derive(Clone, Copy, Debug, PartialEq, Eq, Default)]
pub struct InitializeFanoutV0Bumps {
    pub fanout: u8,
    pub queue_authority: u8,
}

/// The accounts with which a fanout is set up.
#[derive(Clone, Debug, PartialEq, Eq)]
pub struct InitializeFanoutV0 {
    pub payer: Pubkey,
    pub authority: Pubkey,
    pub fanout: Account<FanoutV0>,
    /// The lamports that the account of the fanout holds.
    pub fanout_lamports: u64,
    pub global_state: Account<GlobalStateV0>,
    pub task_queue: Pubkey,
    pub task_queue_authority: Pubkey,
    pub queue_authority: Pubkey,
    pub user_cron_jobs: Pubkey,
    pub cron_job: Pubkey,
    pub cron_job_name_mapping: Pubkey,
    pub task: Pubkey,
    pub task_return_account_1: Pubkey,
    pub task_return_account_2: Pubkey,
    pub system_program: Pubkey,
    pub tuktuk_program: Pubkey,
    pub cron_program: Pubkey,
    pub bumps: InitializeFanoutV0Bumps,
}

impl InitializeFanoutV0 {
    /// `fanout` is the new fanout that `args` ask for: it has issued no
    /// share, handed out no cron transaction id, and has no token inflow.
    pub open spec fn is_new_fanout(self, args: InitializeFanoutV0Args, fanout: FanoutV0) -> bool {
        &&& fanout == (FanoutV0 {
            authority: self.authority,
            cron_job: self.cron_job,
            total_inflow: 0,
            last_snapshot_amount: self.fanout_lamports,
            total_shares: args.total_shares,
            total_shares_issued: 0,
            next_share_id: 0,
            next_cron_transaction_id: 0,
            bump: self.bumps.fanout,
            name: fanout.name,
            available_cron_transaction_ides: fanout.available_cron_transaction_ides,
            queue_authority_bump: self.bumps.queue_authority,
            num_inflows: 0,
        })
        &&& fanout.name@ == args.name@
        &&& fanout.available_cron_transaction_ides@.len() == 0
    }

    /// `cron` are the arguments of the cron job of the fanout that `args`
    /// ask for: it runs on their schedule under their name, and queues five
    /// tasks at a time, none of them free.
    pub open spec fn is_cron_job(args: InitializeFanoutV0Args, cron: InitializeCronJobArgsV0)
        -> bool {
        &&& cron.name@ == args.name@
        &&& cron.schedule@ == args.schedule@
        &&& cron.free_tasks_per_transaction == 0
        &&& cron.num_tasks_per_queue_call == 5
    }
}

/// Sets up a fanout. The caller sets up its cron job with the arguments that
/// are returned.
pub fn handler(ctx: &mut InitializeFanoutV0, args: InitializeFanoutV0Args) -> (r: Result<
    InitializeCronJobArgsV0,
    ErrorCode,
>)
    ensures
        r is Ok,
        *final(ctx) == (InitializeFanoutV0 { fanout: final(ctx).fanout, ..*old(ctx) }),
        final(ctx).fanout.key == old(ctx).fanout.key,
        old(ctx).is_new_fanout(args, final(ctx).fanout.data),
        final(ctx).fanout.data.wf(),
        r matches Ok(cron) ==> InitializeFanoutV0::is_cron_job(args, cron),
{
    ctx.fanout.data = FanoutV0 {
        authority: ctx.authority,
        name: args.name.clone(),
        bump: ctx.bumps.fanout,
        queue_authority_bump: ctx.bumps.queue_authority,
        cron_job: ctx.cron_job,
        total_inflow: 0,
        last_snapshot_amount: ctx.fanout_lamports,
        total_shares: args.total_shares,
        next_share_id: 0,
        next_cron_transaction_id: 0,
        available_cron_transaction_ides: Vec::new(),
        total_shares_issued: 0,
        num_inflows: 0,
    };
    assert(ctx.fanout.data.available_cron_transaction_ides@.to_set() =~= Set::<u32>::empty());
    Ok(
        InitializeCronJobArgsV0 {
            name: args.name,
            schedule: args.schedule,
            free_tasks_per_transaction: 0,
            num_tasks_per_queue_call: 5,
        },
    )
}

} // verus!
