//! Setting up a voucher: the claim of one wallet share on one token.
use vstd::prelude::*;
use anchor_lang::error::Error as AnchorError;
use crate::accounts::Account;
use crate::errors::ErrorCode;
use crate::program::TOKEN_PROGRAM_ID;
use crate::instruction::CompiledTransactionV0;
use crate::pubkey::Pubkey;
use crate::scheduler::{
    associated_token_address, compile_claim, get_associated_token_address, is_claim,
    AddCronTransactionArgsV0, ClaimAccounts, TransactionSourceV0,
};
use crate::state::{FanoutV0, TokenInflowV0, VoucherV0, WalletShareV0};

verus! {

/// The bump seeds of the addresses that the instruction derives.
#[derive(Clone, Copy, Debug, PartialEq, Eq, Default)]
pub struct InitializeVoucherV0Bumps {
    pub token_inflow: u8,
    pub voucher: u8,
}

/// The accounts with which a voucher is set up.
#[derive(Clone, Debug, PartialEq, Eq)]
pub struct InitializeVoucherV0 {
    pub payer: Pubkey,
    pub fanout: Account<FanoutV0>,
    pub token_inflow: Account<TokenInflowV0>,
    pub fanout_token_account: Pubkey,
    pub voucher: Account<VoucherV0>,
    pub wallet_share: Account<WalletShareV0>,
    pub mint: Pubkey,
    pub authority: Pubkey,
    pub cron_job: Pubkey,
    pub cron_job_transaction: Pubkey,
    pub cron_program: Pubkey,
    pub system_program: Pubkey,
    pub token_program: Pubkey,
    pub associated_token_program: Pubkey,
    pub bumps: InitializeVoucherV0Bumps,
}

impl InitializeVoucherV0 {
    /// The token inflow is new: it does not say yet to which fanout it
    /// belongs.
    pub open spec fn opens_inflow(self) -> bool {
        self.token_inflow.data.fanout@ == Pubkey::zero()
    }

    /// Whether the counters have room: for one more token inflow where this
    /// one is new, for one more voucher, and for one more cron transaction id
    /// where none is free.
    pub open spec fn has_room(self) -> bool {
        &&& self.opens_inflow() ==> self.fanout.data.num_inflows < u32::MAX
        &&& !self.opens_inflow() ==> self.token_inflow.data.num_vouchers < u32::MAX
        &&& self.fanout.data.available_cron_transaction_ides@.len() > 0
            || self.fanout.data.next_cron_transaction_id < u32::MAX
    }

    /// The token inflow with the new voucher counted: a new one starts at
    /// nothing.
    pub open spec fn token_inflow_after(self) -> TokenInflowV0 {
        if self.opens_inflow() {
            TokenInflowV0 {
                fanout: self.fanout.key,
                mint: self.mint,
                total_inflow: 0,
                last_snapshot_amount: 0,
                bump: self.bumps.token_inflow,
                rent_refund: self.payer,
                num_vouchers: 1,
            }
        } else {
            TokenInflowV0 {
                num_vouchers: (self.token_inflow.data.num_vouchers + 1) as u32,
                ..self.token_inflow.data
            }
        }
    }

    /// The number of token inflows of the fanout with a new one counted.
    pub open spec fn num_inflows_after(self) -> int {
        if self.opens_inflow() {
            self.fanout.data.num_inflows + 1
        } else {
            self.fanout.data.num_inflows as int
        }
    }

    /// The new voucher, with `index` as its cron transaction id: it has
    /// claimed all that has flowed in so far.
    pub open spec fn voucher_after(self, index: u32) -> VoucherV0 {
        VoucherV0 {
            wallet_share: self.wallet_share.key,
            wallet: self.wallet_share.data.wallet,
            cron_transaction_id: index,
            fanout: self.fanout.key,
            mint: self.mint,
            last_claimed_inflow: self.token_inflow_after().total_inflow,
            total_dust: 0,
            shares: self.wallet_share.data.shares,
            rent_refund: self.payer,
        }
    }

    /// The address of the token account that the wallet of the wallet share
    /// has for the mint.
    pub open spec fn receiver(self) -> Option<Seq<u8>> {
        associated_token_address(self.wallet_share.data.wallet, self.mint)
    }

    /// The accounts of the claim of the new voucher, which pays into
    /// `receiver`.
    pub open spec fn claim(self, receiver: Pubkey) -> ClaimAccounts {
        ClaimAccounts {
            fanout: self.fanout.key,
            cron_job: self.cron_job,
            cron_job_transaction: self.cron_job_transaction,
            queue_authority: self.authority,
            token_inflow: self.token_inflow.key,
            voucher: self.voucher.key,
            wallet_share: self.wallet_share.key,
            wallet: self.wallet_share.data.wallet,
            mint: self.mint,
            fanout_token_account: self.fanout_token_account,
            receiver_token_account: receiver,
            token_program: Pubkey { bytes: TOKEN_PROGRAM_ID },
            cron_program: self.cron_program,
            system_program: self.system_program,
        }
    }

    /// `after` is what setting up the voucher with the cron transaction id
    /// `index` makes of these accounts: the token inflow counts the voucher,
    /// the fanout counts the token inflow where it is new and has handed out
    /// `index`, and the voucher is new.
    pub open spec fn set_up(self, after: InitializeVoucherV0, index: u32) -> bool {
        &&& after == (InitializeVoucherV0 {
            fanout: after.fanout,
            token_inflow: Account { data: self.token_inflow_after(), ..self.token_inflow },
            voucher: Account { data: self.voucher_after(index), ..self.voucher },
            ..self
        })
        &&& after.fanout.key == self.fanout.key
        &&& after.fanout.data == (FanoutV0 {
            num_inflows: self.num_inflows_after() as u32,
            ..self.fanout.data
        }).with_slots_of(after.fanout.data)
        &&& self.fanout.data.slot_pool().allocates(index, after.fanout.data.slot_pool())
        &&& after.fanout.data.slots_wf()
    }

    /// `after` and `args` are what the instruction makes of these accounts
    /// when it succeeds: the voucher is set up, and the scheduler gets its
    /// claim under its cron transaction id.
    pub open spec fn initialized(self, after: InitializeVoucherV0, args: AddCronTransactionArgsV0)
        -> bool {
        &&& self.set_up(after, args.index)
        &&& exists|receiver: Pubkey|
            self.receiver() == Some(receiver@) && is_claim(
                args.transaction_source,
                self.claim(receiver),
            )
    }

    /// The error with which the instruction fails on these accounts, if
    /// there is one: the counters have no room, or no token account derives
    /// for the wallet.
    pub open spec fn refusal(self) -> Option<ErrorCode> {
        if !self.has_room() {
            Some(ErrorCode::ArithmeticError)
        } else if self.receiver().is_none() {
            Some(ErrorCode::InvalidSeeds)
        } else {
            None
        }
    }
}

/// Whether the counters have room for one more voucher.
pub fn has_room(ctx: &InitializeVoucherV0) -> (r: bool)
    ensures
        r == ctx.has_room(),
{
    let opens_inflow = ctx.token_inflow.data.fanout.is_default();
    if opens_inflow && ctx.fanout.data.num_inflows == u32::MAX {
        return false;
    }
    if !opens_inflow && ctx.token_inflow.data.num_vouchers == u32::MAX {
        return false;
    }
    ctx.fanout.data.available_cron_transaction_ides.len() > 0
        || ctx.fanout.data.next_cron_transaction_id < u32::MAX
}

/// Sets up a voucher whose claim is `compiled`: what the compiler made of
/// it. Where the claim was compiled and the counters have room, the voucher
/// is set up and gets a cron transaction id, under which the scheduler is to
/// run the claim. Its token inflow is set up with it where it is new.
pub fn set_up(
    ctx: &mut InitializeVoucherV0,
    compiled: Result<CompiledTransactionV0, AnchorError>,
) -> (r: Result<AddCronTransactionArgsV0, ErrorCode>)
    requires
        old(ctx).fanout.data.slots_wf(),
    ensures
        match r {
            Ok(args) => {
                &&& old(ctx).has_room()
                &&& compiled matches Ok(transaction) && args.transaction_source
                    == TransactionSourceV0::CompiledV0(transaction)
                &&& old(ctx).set_up(*final(ctx), args.index)
            },
            Err(e) => {
                &&& *final(ctx) == *old(ctx)
                &&& if !old(ctx).has_room() {
                    e == ErrorCode::ArithmeticError
                } else {
                    compiled is Err && e == ErrorCode::TransactionNotCompiled
                }
            },
        },
        old(ctx).fanout.data.wf() ==> final(ctx).fanout.data.wf(),
{
    if !has_room(ctx) {
        return Err(ErrorCode::ArithmeticError);
    }
    let opens_inflow = ctx.token_inflow.data.fanout.is_default();
    let transaction_source = match compiled {
        Ok(transaction) => TransactionSourceV0::CompiledV0(transaction),
        Err(_) => { return Err(ErrorCode::TransactionNotCompiled); },
    };

    // Initialize token inflow if needed
    if opens_inflow {
        ctx.token_inflow.data = TokenInflowV0 {
            fanout: ctx.fanout.key,
            mint: ctx.mint,
            total_inflow: 0,
            last_snapshot_amount: 0,
            bump: ctx.bumps.token_inflow,
            rent_refund: ctx.payer,
            num_vouchers: 0,
        };
        // Increment fanout's inflow count
        ctx.fanout.data.num_inflows = ctx.fanout.data.num_inflows + 1;
    }
    ctx.token_inflow.data.num_vouchers = ctx.token_inflow.data.num_vouchers + 1;

    let cron_transaction_id = ctx.fanout.data.get_next_cron_transaction_id();

    ctx.voucher.data = VoucherV0 {
        wallet: ctx.wallet_share.data.wallet,
        fanout: ctx.fanout.key,
        mint: ctx.mint,
        cron_transaction_id,
        last_claimed_inflow: ctx.token_inflow.data.total_inflow,
        total_dust: 0,
        wallet_share: ctx.wallet_share.key,
        shares: ctx.wallet_share.data.shares,
        rent_refund: ctx.payer,
    };
    Ok(AddCronTransactionArgsV0 { index: cron_transaction_id, transaction_source })
}

/// Sets up a voucher. Its token inflow is set up with it where it is new.
/// The voucher gets a cron transaction id, under which the scheduler is to
/// run the claim that is returned. This succeeds wherever the counters have
/// room and a token account derives for the wallet of the wallet share.
pub fn handler(ctx: &mut InitializeVoucherV0) -> (r: Result<AddCronTransactionArgsV0, ErrorCode>)
    requires
        old(ctx).fanout.data.slots_wf(),
    ensures
        match r {
            Ok(args) => old(ctx).refusal().is_none() && old(ctx).initialized(*final(ctx), args),
            Err(e) => old(ctx).refusal() == Some(e) && *final(ctx) == *old(ctx),
        },
        old(ctx).has_room() && old(ctx).receiver().is_some() ==> r is Ok,
        old(ctx).fanout.data.wf() ==> final(ctx).fanout.data.wf(),
{
    if !has_room(ctx) {
        return Err(ErrorCode::ArithmeticError);
    }
    let wallet = ctx.wallet_share.data.wallet;
    let receiver = match get_associated_token_address(&wallet, &ctx.mint) {
        Some(receiver) => receiver,
        None => { return Err(ErrorCode::InvalidSeeds); },
    };
    let accounts = ClaimAccounts {
        fanout: ctx.fanout.key,
        cron_job: ctx.cron_job,
        cron_job_transaction: ctx.cron_job_transaction,
        queue_authority: ctx.authority,
        token_inflow: ctx.token_inflow.key,
        voucher: ctx.voucher.key,
        wallet_share: ctx.wallet_share.key,
        wallet,
        mint: ctx.mint,
        fanout_token_account: ctx.fanout_token_account,
        receiver_token_account: receiver,
        token_program: Pubkey { bytes: TOKEN_PROGRAM_ID },
        cron_program: ctx.cron_program,
        system_program: ctx.system_program,
    };
    assert(accounts == ctx.claim(receiver));
    set_up(ctx, compile_claim(&accounts))
}

} // verus!
