//! Closing a voucher once it has claimed all there is to claim.
use vstd::prelude::*;
use crate::accounts::{Account, TokenAccount};
use crate::errors::ErrorCode;
use crate::pubkey::Pubkey;
use crate::scheduler::RemoveCronTransactionArgsV0;
use crate::state::{FanoutV0, TokenInflowV0, VoucherV0};

verus! {

/// The accounts with which a voucher is closed.
#[derive(Clone, Debug, PartialEq, Eq)]
pub struct CloseVoucherV0 {
    pub fanout: Account<FanoutV0>,
    pub authority: Pubkey,
    pub token_inflow: Account<TokenInflowV0>,
    pub fanout_token_account: Account<TokenAccount>,
    pub voucher: Account<VoucherV0>,
    pub wallet_share: Pubkey,
    pub rent_refund: Pubkey,
    pub cron_job: Pubkey,
    pub cron_job_transaction: Pubkey,
    pub queue_authority: Pubkey,
    pub payer: Pubkey,
    pub system_program: Pubkey,
    pub cron_program: Pubkey,
}

impl CloseVoucherV0 {
    /// Whether the total inflow can be brought up to the balance of the
    /// fanout's token account.
    pub open spec fn can_update(self) -> bool {
        self.token_inflow.data.can_update(
            self.fanout_token_account.data.amount,
            self.fanout.data,
        )
    }

    /// The token inflow with its total brought up to date.
    pub open spec fn updated_inflow(self) -> TokenInflowV0 {
        self.token_inflow.data.updated(self.fanout_token_account.data.amount, self.fanout.data)
    }

    /// The voucher has claimed all that has flowed in.
    pub open spec fn claimed_all(self) -> bool {
        self.updated_inflow().total_inflow == self.voucher.data.last_claimed_inflow
    }

    /// The error with which the voucher cannot be closed, if there is one.
    pub open spec fn refusal(self) -> Option<ErrorCode> {
        if !self.can_update() {
            Some(ErrorCode::ArithmeticError)
        } else if !self.claimed_all() {
            Some(ErrorCode::RewardsNotClaimed)
        } else if self.token_inflow.data.num_vouchers == 0 {
            Some(ErrorCode::ArithmeticError)
        } else {
            None
        }
    }

    /// `after` is what closing the voucher makes of these accounts: the
    /// token inflow is up to date and counts one voucher less, and the cron
    /// transaction id of the voucher is back with the fanout.
    pub open spec fn closed(self, after: CloseVoucherV0) -> bool {
        &&& after == (CloseVoucherV0 {
            fanout: after.fanout,
            token_inflow: Account {
                data: TokenInflowV0 {
                    num_vouchers: (self.token_inflow.data.num_vouchers - 1) as u32,
                    ..self.updated_inflow()
                },
                ..self.token_inflow
            },
            ..self
        })
        &&& after.fanout.key == self.fanout.key
        &&& after.fanout.data == self.fanout.data.with_slots_of(after.fanout.data)
        &&& after.fanout.data.slot_pool() == self.fanout.data.slot_pool().release(
            self.voucher.data.cron_transaction_id,
        )
        &&& crate::slots::ascending(after.fanout.data.available_cron_transaction_ides@)
    }
}

/// Closes a voucher. It must have claimed all that has flowed in, up to what
/// the token account of the fanout holds now. The caller takes the cron
/// transaction of the voucher out of the cron job, with the arguments that
/// are returned.
pub fn handler(ctx: &mut CloseVoucherV0) -> (r: Result<RemoveCronTransactionArgsV0, ErrorCode>)
    requires
        old(ctx).fanout.data.slots_wf(),
    ensures
        match r {
            Ok(args) => {
                &&& old(ctx).refusal().is_none()
                &&& args.index == old(ctx).voucher.data.cron_transaction_id
                &&& old(ctx).closed(*final(ctx))
                &&& args.index < old(ctx).fanout.data.next_cron_transaction_id
                    ==> final(ctx).fanout.data.slots_wf()
            },
            Err(e) => old(ctx).refusal() == Some(e) && *final(ctx) == *old(ctx),
        },
        final(ctx).fanout.data.shares_wf() == old(ctx).fanout.data.shares_wf(),
        final(ctx).token_inflow.data.total_inflow >= old(ctx).token_inflow.data.total_inflow,
{
    let mut token_inflow = ctx.token_inflow.data;
    match token_inflow.update_total_inflow(ctx.fanout_token_account.data.amount, &ctx.fanout.data) {
        Ok(()) => {},
        Err(e) => { return Err(e); },
    }
    if token_inflow.total_inflow != ctx.voucher.data.last_claimed_inflow {
        return Err(ErrorCode::RewardsNotClaimed);
    }
    // Decrement voucher count
    if token_inflow.num_vouchers == 0 {
        return Err(ErrorCode::ArithmeticError);
    }
    token_inflow.num_vouchers = token_inflow.num_vouchers - 1;
    ctx.token_inflow.data = token_inflow;

    // Return the cron transaction index
    let index = ctx.voucher.data.cron_transaction_id;
    ctx.fanout.data.return_cron_transaction_id_to_pool(index);
    Ok(RemoveCronTransactionArgsV0 { index })
}

} // verus!
