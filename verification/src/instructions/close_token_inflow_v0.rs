//! Closing a token inflow that no voucher claims any more.
use vstd::prelude::*;
use crate::accounts::{Account, TokenAccount};
use crate::errors::ErrorCode;
use crate::pubkey::Pubkey;
use crate::state::{FanoutV0, TokenInflowV0};
use crate::token::{CloseAccount, Transfer};

verus! {

/// The accounts with which a token inflow is closed.
#[derive(Clone, Debug, PartialEq, Eq)]
pub struct CloseTokenInflowV0 {
    pub fanout: Account<FanoutV0>,
    pub authority: Pubkey,
    pub token_inflow: Account<TokenInflowV0>,
    pub mint: Pubkey,
    pub fanout_token_account: Account<TokenAccount>,
    pub authority_token_account: Pubkey,
    pub rent_refund: Pubkey,
    pub token_program: Pubkey,
    pub associated_token_program: Pubkey,
    pub system_program: Pubkey,
}

/// What the caller does with the token account of the fanout: it moves out
/// what the account holds, if it holds anything, and closes it.
#[derive(Clone, Copy, Debug, PartialEq, Eq)]
pub struct CloseTokenInflowSteps {
    pub transfer: Option<Transfer>,
    pub close: CloseAccount,
}

impl CloseTokenInflowV0 {
    /// The error with which the token inflow cannot be closed, if there is
    /// one: vouchers are left, or the fanout counts no token inflow.
    pub open spec fn refusal(self) -> Option<ErrorCode> {
        if self.token_inflow.data.num_vouchers != 0 {
            Some(ErrorCode::ConstraintRaw)
        } else if self.fanout.data.num_inflows == 0 {
            Some(ErrorCode::ArithmeticError)
        } else {
            None
        }
    }

    /// The accounts once the token inflow is closed: the fanout counts one
    /// token inflow less.
    pub open spec fn closed(self) -> CloseTokenInflowV0 {
        CloseTokenInflowV0 {
            fanout: Account {
                data: FanoutV0 {
                    num_inflows: (self.fanout.data.num_inflows - 1) as u32,
                    ..self.fanout.data
                },
                ..self.fanout
            },
            ..self
        }
    }

    /// What is to be done with the token account of the fanout: what it
    /// holds goes to the token account of the authority, and its rent to the
    /// account that paid it.
    pub open spec fn steps(self) -> CloseTokenInflowSteps {
        CloseTokenInflowSteps {
            transfer: if self.fanout_token_account.data.amount > 0 {
                Some(
                    Transfer {
                        from: self.fanout_token_account.key,
                        to: self.authority_token_account,
                        authority: self.fanout.key,
                        amount: self.fanout_token_account.data.amount,
                    },
                )
            } else {
                None
            },
            close: CloseAccount {
                account: self.fanout_token_account.key,
                destination: self.rent_refund,
                authority: self.fanout.key,
            },
        }
    }
}

/// Closes a token inflow. No voucher may be left on it.
pub fn handler(ctx: &mut CloseTokenInflowV0) -> (r: Result<CloseTokenInflowSteps, ErrorCode>)
    ensures
        match r {
            Ok(steps) => old(ctx).refusal().is_none() && steps == old(ctx).steps() && *final(ctx)
                == old(ctx).closed(),
            Err(e) => old(ctx).refusal() == Some(e) && *final(ctx) == *old(ctx),
        },
        old(ctx).fanout.data.wf() ==> final(ctx).fanout.data.wf(),
{
    if ctx.token_inflow.data.num_vouchers != 0 {
        return Err(ErrorCode::ConstraintRaw);
    }
    if ctx.fanout.data.num_inflows == 0 {
        return Err(ErrorCode::ArithmeticError);
    }
    ctx.fanout.data.num_inflows = ctx.fanout.data.num_inflows - 1;
    // Transfer remaining tokens to authority
    let transfer = if ctx.fanout_token_account.data.amount > 0 {
        Some(
            Transfer {
                from: ctx.fanout_token_account.key,
                to: ctx.authority_token_account,
                authority: ctx.fanout.key,
                amount: ctx.fanout_token_account.data.amount,
            },
        )
    } else {
        None
    };
    // Close the token account
    let close = CloseAccount {
        account: ctx.fanout_token_account.key,
        destination: ctx.rent_refund,
        authority: ctx.fanout.key,
    };
    Ok(CloseTokenInflowSteps { transfer, close })
}

} // verus!
