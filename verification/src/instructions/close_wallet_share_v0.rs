//! Closing a wallet share: its shares go back to the fanout.
use vstd::prelude::*;
use crate::accounts::Account;
use crate::errors::ErrorCode;
use crate::pubkey::Pubkey;
use crate::state::{FanoutV0, WalletShareV0};

verus! {

/// The accounts with which a wallet share is closed.
#[derive(Clone, Debug, PartialEq, Eq)]
pub struct CloseWalletShareV0 {
    pub fanout: Account<FanoutV0>,
    pub authority: Pubkey,
    pub wallet_share: Account<WalletShareV0>,
    pub rent_refund: Pubkey,
}

impl CloseWalletShareV0 {
    /// The fanout has issued the shares that the wallet share holds.
    pub open spec fn closable(self) -> bool {
        self.wallet_share.data.shares <= self.fanout.data.total_shares_issued
    }

    /// The accounts once the shares are back with the fanout.
    pub open spec fn closed(self) -> CloseWalletShareV0 {
        CloseWalletShareV0 {
            fanout: Account {
                data: FanoutV0 {
                    total_shares_issued: (self.fanout.data.total_shares_issued
                        - self.wallet_share.data.shares) as u32,
                    ..self.fanout.data
                },
                ..self.fanout
            },
            ..self
        }
    }
}

/// Closes a wallet share.
pub fn handler(ctx: &mut CloseWalletShareV0) -> (r: Result<(), ErrorCode>)
    ensures
        match r {
            Ok(()) => old(ctx).closable() && *final(ctx) == old(ctx).closed(),
            Err(e) => !old(ctx).closable() && e == ErrorCode::ArithmeticError && *final(ctx)
                == *old(ctx),
        },
        old(ctx).fanout.data.wf() ==> final(ctx).fanout.data.wf(),
{
    if ctx.wallet_share.data.shares > ctx.fanout.data.total_shares_issued {
        return Err(ErrorCode::ArithmeticError);
    }
    ctx.fanout.data.total_shares_issued = ctx.fanout.data.total_shares_issued
        - ctx.wallet_share.data.shares;
    Ok(())
}

} // verus!
