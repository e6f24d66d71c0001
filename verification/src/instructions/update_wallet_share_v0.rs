//! Giving a wallet shares of a fanout, or changing how many it has.
use vstd::prelude::*;
use crate::accounts::Account;
use crate::errors::ErrorCode;
use crate::pubkey::Pubkey;
use crate::state::{FanoutV0, WalletShareV0};

verus! {

/// What the caller chooses for a wallet share.
#[derive(Clone, Copy, Debug, PartialEq, Eq)]
pub struct UpdateWalletShareV0Args {
    pub shares: u32,
    pub index: u32,
}

/// The accounts with which a wallet share is set.
#[derive(Clone, Debug, PartialEq, Eq)]
pub struct UpdateWalletShareV0 {
    pub payer: Pubkey,
    pub authority: Pubkey,
    pub wallet: Pubkey,
    pub fanout: Account<FanoutV0>,
    pub wallet_share: Account<WalletShareV0>,
    pub system_program: Pubkey,
}

impl UpdateWalletShareV0 {
    /// The shares that the fanout has issued once this wallet share holds
    /// `shares`.
    pub open spec fn issued_after(self, shares: u32) -> int {
        self.fanout.data.total_shares_issued - self.wallet_share.data.shares + shares
    }

    /// The error with which the wallet share cannot be set, if there is one.
    pub open spec fn refusal(self, args: UpdateWalletShareV0Args) -> Option<ErrorCode> {
        if self.wallet_share.data.shares > self.fanout.data.total_shares_issued {
            Some(ErrorCode::ArithmeticError)
        } else if self.issued_after(args.shares) > self.fanout.data.total_shares {
            Some(ErrorCode::TotalSharesExceeded)
        } else if args.index == u32::MAX {
            Some(ErrorCode::ArithmeticError)
        } else {
            None
        }
    }

    /// The index that the fanout proposes for the next wallet share: one
    /// more than the highest it has seen.
    pub open spec fn next_share_id_after(self, index: u32) -> int {
        if index + 1 > self.fanout.data.next_share_id {
            index + 1
        } else {
            self.fanout.data.next_share_id as int
        }
    }

    /// The accounts once the wallet share is set as `args` ask.
    pub open spec fn updated(self, args: UpdateWalletShareV0Args) -> UpdateWalletShareV0 {
        UpdateWalletShareV0 {
            fanout: Account {
                data: FanoutV0 {
                    total_shares_issued: self.issued_after(args.shares) as u32,
                    next_share_id: self.next_share_id_after(args.index) as u32,
                    ..self.fanout.data
                },
                ..self.fanout
            },
            wallet_share: Account {
                data: WalletShareV0 {
                    fanout: self.fanout.key,
                    index: args.index,
                    wallet: self.wallet,
                    shares: args.shares,
                    rent_refund: self.payer,
                },
                ..self.wallet_share
            },
            ..self
        }
    }
}

/// Sets the wallet and the shares of a wallet share. The fanout never
/// issues more shares than it has.
pub fn handler(ctx: &mut UpdateWalletShareV0, args: UpdateWalletShareV0Args) -> (r: Result<
    (),
    ErrorCode,
>)
    ensures
        match r {
            Ok(()) => old(ctx).refusal(args).is_none() && *final(ctx) == old(ctx).updated(args),
            Err(e) => old(ctx).refusal(args) == Some(e) && *final(ctx) == *old(ctx),
        },
        r is Ok ==> final(ctx).fanout.data.shares_wf(),
        old(ctx).fanout.data.wf() ==> final(ctx).fanout.data.wf(),
{
    let issued = ctx.fanout.data.total_shares_issued;
    let shares = ctx.wallet_share.data.shares;
    if shares > issued {
        return Err(ErrorCode::ArithmeticError);
    }
    let total_shares_issued: u64 = (issued - shares) as u64 + args.shares as u64;
    if total_shares_issued > ctx.fanout.data.total_shares as u64 {
        return Err(ErrorCode::TotalSharesExceeded);
    }
    if args.index == u32::MAX {
        return Err(ErrorCode::ArithmeticError);
    }
    ctx.fanout.data.total_shares_issued = total_shares_issued as u32;

    // Update wallet share
    ctx.wallet_share.data = WalletShareV0 {
        fanout: ctx.fanout.key,
        index: args.index,
        wallet: ctx.wallet,
        shares: args.shares,
        rent_refund: ctx.payer,
    };

    if args.index + 1 > ctx.fanout.data.next_share_id {
        ctx.fanout.data.next_share_id = args.index + 1;
    }
    Ok(())
}

} // verus!
