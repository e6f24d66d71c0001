//! The instructions of the program under the names by which they are called.
use vstd::prelude::*;
use crate::errors::ErrorCode;
use crate::instructions::claim_v0::{ClaimStep, ClaimV0, TWELVE_PREC};
use crate::instructions::close_fanout_v0::CloseFanoutV0;
use crate::instructions::close_token_inflow_v0::{CloseTokenInflowSteps, CloseTokenInflowV0};
use crate::instructions::close_voucher_v0::CloseVoucherV0;
use crate::instructions::close_wallet_share_v0::CloseWalletShareV0;
use crate::instructions::initialize_fanout_v0::{InitializeFanoutV0, InitializeFanoutV0Args};
use crate::instructions::initialize_global_state_v0::InitializeGlobalStateV0;
use crate::instructions::initialize_voucher_v0::InitializeVoucherV0;
use crate::instructions::update_wallet_share_v0::{UpdateWalletShareV0, UpdateWalletShareV0Args};
use crate::scheduler::{
    AddCronTransactionArgsV0, InitializeCronJobArgsV0, RemoveCronTransactionArgsV0,
};

verus! {

/// Sets up the global state.
pub fn initialize_global_state_v0(ctx: &mut InitializeGlobalStateV0) -> (r: Result<(), ErrorCode>)
    ensures
        r is Ok,
        *final(ctx) == old(ctx).initialized(),
{
    crate::instructions::initialize_global_state_v0::handler(ctx)
}

/// Sets up a fanout; the caller sets up its cron job with what is returned.
pub fn initialize_fanout_v0(ctx: &mut InitializeFanoutV0, args: InitializeFanoutV0Args) -> (r:
    Result<InitializeCronJobArgsV0, ErrorCode>)
    ensures
        r is Ok,
        *final(ctx) == (InitializeFanoutV0 { fanout: final(ctx).fanout, ..*old(ctx) }),
        final(ctx).fanout.key == old(ctx).fanout.key,
        old(ctx).is_new_fanout(args, final(ctx).fanout.data),
        final(ctx).fanout.data.wf(),
        r matches Ok(cron) ==> InitializeFanoutV0::is_cron_job(args, cron),
{
    crate::instructions::initialize_fanout_v0::handler(ctx, args)
}

/// Sets the wallet and the shares of a wallet share.
pub fn update_wallet_share_v0(ctx: &mut UpdateWalletShareV0, args: UpdateWalletShareV0Args) -> (r:
    Result<(), ErrorCode>)
    ensures
        match r {
            Ok(()) => old(ctx).refusal(args).is_none() && *final(ctx) == old(ctx).updated(args),
            Err(e) => old(ctx).refusal(args) == Some(e) && *final(ctx) == *old(ctx),
        },
        r is Ok ==> final(ctx).fanout.data.shares_wf(),
        old(ctx).fanout.data.wf() ==> final(ctx).fanout.data.wf(),
{
    crate::instructions::update_wallet_share_v0::handler(ctx, args)
}

/// Sets up a voucher; the caller puts the claim that is returned into the
/// cron job.
pub fn init_voucher_v0(ctx: &mut InitializeVoucherV0) -> (r: Result<
    AddCronTransactionArgsV0,
    ErrorCode,
>)
    requires
        old(ctx).fanout.data.slots_wf(),
    ensures
        match r {
            Ok(args) => old(ctx).refusal().is_none() && old(ctx).initialized(*final(ctx), args),
            Err(e) => old(ctx).refusal() == Some(e) && *final(ctx) == *old(ctx),
        },
        old(ctx).has_room() && old(ctx).receiver().is_some() ==> r is Ok,
        old(ctx).fanout.data.wf() ==> final(ctx).fanout.data.wf(),
{
    crate::instructions::initialize_voucher_v0::handler(ctx)
}

/// Begins a claim; the caller does what the step that is returned says.
pub fn claim_v0(ctx: &mut ClaimV0) -> (r: Result<ClaimStep, ErrorCode>)
    ensures
        match r {
            Ok(step) => {
                &&& old(ctx).claimable()
                &&& if old(ctx).amount() > 0 {
                    &&& step == ClaimStep::Transfer(old(ctx).transfer())
                    &&& *final(ctx) == *old(ctx)
                } else {
                    &&& !old(ctx).resync_fails()
                    &&& old(ctx).distributed().resynced(*final(ctx), step)
                }
            },
            Err(e) => {
                &&& *final(ctx) == *old(ctx)
                &&& if old(ctx).claimable() {
                    old(ctx).amount() == 0 && old(ctx).resync_fails() && e
                        == ErrorCode::InvalidSeeds
                } else {
                    e == ErrorCode::ArithmeticError
                }
            },
        },
        old(ctx).claimable() && (old(ctx).amount() > 0 || !old(ctx).wallet_changed() || old(
            ctx,
        ).next_receiver().is_some()) ==> r is Ok,
        final(ctx).fanout == old(ctx).fanout,
        final(ctx).token_inflow.data.total_inflow >= old(ctx).token_inflow.data.total_inflow,
        final(ctx).voucher.data.total_dust < 2 * TWELVE_PREC || final(ctx).voucher == old(
            ctx,
        ).voucher,
{
    crate::instructions::claim_v0::handler(ctx)
}

/// Closes a token inflow; the caller empties and closes its token account
/// as the steps that are returned say.
pub fn close_token_inflow_v0(ctx: &mut CloseTokenInflowV0) -> (r: Result<
    CloseTokenInflowSteps,
    ErrorCode,
>)
    ensures
        match r {
            Ok(steps) => old(ctx).refusal().is_none() && steps == old(ctx).steps() && *final(ctx)
                == old(ctx).closed(),
            Err(e) => old(ctx).refusal() == Some(e) && *final(ctx) == *old(ctx),
        },
        old(ctx).fanout.data.wf() ==> final(ctx).fanout.data.wf(),
{
    crate::instructions::close_token_inflow_v0::handler(ctx)
}

/// Closes a wallet share.
pub fn close_wallet_share_v0(ctx: &mut CloseWalletShareV0) -> (r: Result<(), ErrorCode>)
    ensures
        match r {
            Ok(()) => old(ctx).closable() && *final(ctx) == old(ctx).closed(),
            Err(e) => !old(ctx).closable() && e == ErrorCode::ArithmeticError && *final(ctx)
                == *old(ctx),
        },
        old(ctx).fanout.data.wf() ==> final(ctx).fanout.data.wf(),
{
    crate::instructions::close_wallet_share_v0::handler(ctx)
}

/// Closes a voucher; the caller takes its cron transaction out of the cron
/// job.
pub fn close_voucher_v0(ctx: &mut CloseVoucherV0) -> (r: Result<
    RemoveCronTransactionArgsV0,
    ErrorCode,
>)
    requires
        old(ctx).fanout.data.slots_wf(),
    ensures
        match r {
            Ok(args) => {
                &&& old(ctx).refusal().is_none()
                &&& args.index == old(ctx).voucher.data.cron_transaction_id
                &&& old(ctx).closed(*final(ctx))
                &&& args.index < old(ctx).fanout.data.next_cron_transaction_id
                    ==> final(ctx).fanout.data.slots_wf()
            },
            Err(e) => old(ctx).refusal() == Some(e) && *final(ctx) == *old(ctx),
        },
        final(ctx).fanout.data.shares_wf() == old(ctx).fanout.data.shares_wf(),
        final(ctx).token_inflow.data.total_inflow >= old(ctx).token_inflow.data.total_inflow,
{
    crate::instructions::close_voucher_v0::handler(ctx)
}

/// Closes a fanout; the caller closes its cron job.
pub fn close_fanout_v0(ctx: &CloseFanoutV0) -> (r: Result<(), ErrorCode>)
    ensures
        match r {
            Ok(()) => ctx.fanout.data.num_inflows == 0,
            Err(e) => ctx.fanout.data.num_inflows != 0 && e
                == ErrorCode::CannotCloseFanoutWithInflows,
        },
{
    crate::instructions::close_fanout_v0::handler(ctx)
}

} // verus!
