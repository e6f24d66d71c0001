//! Claiming: paying a voucher its part of what has flowed in since it last
//! claimed.
use vstd::prelude::*;
use vstd::arithmetic::div_mod::lemma_fundamental_div_mod;
use anchor_lang::error::Error as AnchorError;
use crate::accounts::{Account, TokenAccount};
use crate::errors::ErrorCode;
use crate::program::TOKEN_PROGRAM_ID;
use crate::pubkey::Pubkey;
use crate::instruction::CompiledTransactionV0;
use crate::scheduler::{
    associated_token_address, compile_claim, get_associated_token_address, is_claim,
    AddCronTransactionArgsV0, ClaimAccounts, RemoveCronTransactionArgsV0, TransactionSourceV0,
};
use crate::state::{FanoutV0, TokenInflowV0, VoucherV0, WalletShareV0};
use crate::token::Transfer;

verus! {

/// The parts into which one token is divided when an inflow is shared out.
pub const TWELVE_PREC: u128 = 1_000000000000;

/// What a claim pays, and what it leaves over.
#[derive(Clone, Copy, Debug, PartialEq, Eq)]
pub struct Distribution {
    /// The tokens to pay.
    pub amount: u64,
    /// What is left over, in parts of a token.
    pub total_dust: u64,
}

/// The part of an inflow that falls to `shares` of `total_shares`, in parts
/// of a token.
pub open spec fn dist_amount(total_inflow_change: int, shares: int, total_shares: int) -> int {
    total_inflow_change * TWELVE_PREC * shares / total_shares
}

/// The dust after a claim, before any of it is paid: what the claim leaves
/// over and what the voucher had left over before.
pub open spec fn new_dust(total_inflow_change: int, shares: int, total_shares: int, total_dust: int)
    -> int {
    dist_amount(total_inflow_change, shares, total_shares) % (TWELVE_PREC as int) + total_dust
}

/// Whether the dust pays a token: it does once it is more than one token and
/// has reached two.
pub open spec fn dust_pays(dust: int) -> bool {
    dust / (TWELVE_PREC as int) > 1
}

/// The tokens that a claim pays.
pub open spec fn paid_amount(
    total_inflow_change: int,
    shares: int,
    total_shares: int,
    total_dust: int,
) -> int {
    let whole = dist_amount(total_inflow_change, shares, total_shares) / (TWELVE_PREC as int);
    if dust_pays(new_dust(total_inflow_change, shares, total_shares, total_dust)) {
        whole + 1
    } else {
        whole
    }
}

/// The dust that a claim leaves: where the dust pays a token, every whole
/// token in it goes.
pub open spec fn dust_left(
    total_inflow_change: int,
    shares: int,
    total_shares: int,
    total_dust: int,
) -> int {
    let dust = new_dust(total_inflow_change, shares, total_shares, total_dust);
    if dust_pays(dust) {
        dust - (dust / (TWELVE_PREC as int)) * TWELVE_PREC
    } else {
        dust
    }
}

/// Whether the claim can be worked out: there are shares, the inflow times
/// the shares fits in 128 bits, and the payment and the dust fit in 64.
pub open spec fn distributable(
    total_inflow_change: int,
    shares: int,
    total_shares: int,
    total_dust: int,
) -> bool {
    &&& total_shares > 0
    &&& total_inflow_change * TWELVE_PREC * shares <= u128::MAX
    &&& new_dust(total_inflow_change, shares, total_shares, total_dust) <= u64::MAX
    &&& paid_amount(total_inflow_change, shares, total_shares, total_dust) <= u64::MAX
}

/// Works out what a voucher with `shares` of the `total_shares` and
/// `total_dust` left over is paid of an inflow of `total_inflow_change`.
pub fn distribute(total_inflow_change: u64, shares: u32, total_shares: u32, total_dust: u64) -> (r:
    Result<Distribution, ErrorCode>)
    ensures
        match r {
            Ok(d) => {
                &&& distributable(
                    total_inflow_change as int,
                    shares as int,
                    total_shares as int,
                    total_dust as int,
                )
                &&& d.amount == paid_amount(
                    total_inflow_change as int,
                    shares as int,
                    total_shares as int,
                    total_dust as int,
                )
                &&& d.total_dust == dust_left(
                    total_inflow_change as int,
                    shares as int,
                    total_shares as int,
                    total_dust as int,
                )
                &&& d.total_dust < 2 * TWELVE_PREC
            },
            Err(e) => e == ErrorCode::ArithmeticError && !distributable(
                total_inflow_change as int,
                shares as int,
                total_shares as int,
                total_dust as int,
            ),
        },
{
    assert(total_inflow_change * TWELVE_PREC <= 0xffff_ffff_ffff_ffff * 1_000000000000)
        by (nonlinear_arith)
        requires
            0 <= total_inflow_change <= 0xffff_ffff_ffff_ffff,
            TWELVE_PREC == 1_000000000000,
    ;
    let scaled: u128 = (total_inflow_change as u128) * TWELVE_PREC;
    let product: u128 = match scaled.checked_mul(shares as u128) {
        Some(product) => product,
        None => { return Err(ErrorCode::ArithmeticError); },
    };
    if total_shares == 0 {
        return Err(ErrorCode::ArithmeticError);
    }
    let dist_amount: u128 = product / (total_shares as u128);
    let whole: u128 = dist_amount / TWELVE_PREC;
    let dust: u64 = (dist_amount % TWELVE_PREC) as u64;
    if whole > u64::MAX as u128 {
        return Err(ErrorCode::ArithmeticError);
    }
    let mut dist_amount_u64: u64 = whole as u64;
    let new_dust: u64 = match dust.checked_add(total_dust) {
        Some(new_dust) => new_dust,
        None => { return Err(ErrorCode::ArithmeticError); },
    };
    let precision: u64 = 1_000000000000;
    let whole_dust: u64 = new_dust / precision;
    if whole_dust > 1 {
        dist_amount_u64 = match dist_amount_u64.checked_add(1) {
            Some(amount) => amount,
            None => { return Err(ErrorCode::ArithmeticError); },
        };
        proof {
            lemma_fundamental_div_mod(new_dust as int, precision as int);
        }
        Ok(Distribution { amount: dist_amount_u64, total_dust: new_dust % precision })
    } else {
        Ok(Distribution { amount: dist_amount_u64, total_dust: new_dust })
    }
}

/// The accounts of a claim.
#[derive(Clone, Debug, PartialEq, Eq)]
pub struct ClaimV0 {
    pub fanout: Account<FanoutV0>,
    pub cron_job: Pubkey,
    pub cron_job_transaction: Pubkey,
    pub queue_authority: Pubkey,
    pub token_inflow: Account<TokenInflowV0>,
    pub voucher: Account<VoucherV0>,
    pub wallet_share: Account<WalletShareV0>,
    pub wallet: Pubkey,
    pub mint: Pubkey,
    pub fanout_token_account: Account<TokenAccount>,
    pub receiver_token_account: Pubkey,
    pub token_program: Pubkey,
    pub cron_program: Pubkey,
    pub system_program: Pubkey,
}

/// What the caller of a claim has to do next.
#[derive(Clone, Debug, PartialEq, Eq)]
pub enum ClaimStep {
    /// Move the tokens, read what the token account of the fanout holds then,
    /// and call `settle` with it. Nothing has been changed yet: where the
    /// tokens cannot be moved, the claim has not happened.
    Transfer(Transfer),
    /// The share has gone to another wallet: take the cron transaction of the
    /// voucher out, and put in its place the claim that pays the new wallet.
    Reschedule { remove: RemoveCronTransactionArgsV0, add: AddCronTransactionArgsV0 },
    /// The claim is complete.
    Done,
}

impl ClaimV0 {
    /// The total inflow once it is brought up to the balance of the fanout's
    /// token account.
    pub open spec fn total_inflow(self) -> int {
        self.token_inflow.data.inflow_after(
            self.fanout_token_account.data.amount,
            self.fanout.data,
        )
    }

    /// What has flowed in since the voucher last claimed.
    pub open spec fn total_inflow_change(self) -> int {
        self.total_inflow() - self.voucher.data.last_claimed_inflow
    }

    /// Whether the claim can be worked out: the total inflow can be brought
    /// up to date, the voucher is not ahead of it, and its part can be
    /// computed.
    pub open spec fn claimable(self) -> bool {
        &&& self.token_inflow.data.can_update(
            self.fanout_token_account.data.amount,
            self.fanout.data,
        )
        &&& self.total_inflow_change() >= 0
        &&& distributable(
            self.total_inflow_change(),
            self.voucher.data.shares as int,
            self.fanout.data.total_shares as int,
            self.voucher.data.total_dust as int,
        )
    }

    /// The tokens that the claim pays.
    pub open spec fn amount(self) -> int {
        paid_amount(
            self.total_inflow_change(),
            self.voucher.data.shares as int,
            self.fanout.data.total_shares as int,
            self.voucher.data.total_dust as int,
        )
    }

    /// The payment of the claim: from the token account of the fanout, in
    /// the name of the fanout, to the token account of the receiver.
    pub open spec fn transfer(self) -> Transfer {
        Transfer {
            from: self.fanout_token_account.key,
            to: self.receiver_token_account,
            authority: self.fanout.key,
            amount: self.amount() as u64,
        }
    }

    /// The accounts once the claim is worked out: the total inflow is up to
    /// date, and the voucher holds the dust that the claim leaves.
    pub open spec fn distributed(self) -> ClaimV0 {
        ClaimV0 {
            token_inflow: Account {
                data: self.token_inflow.data.updated(
                    self.fanout_token_account.data.amount,
                    self.fanout.data,
                ),
                ..self.token_inflow
            },
            voucher: Account {
                data: VoucherV0 {
                    total_dust: dust_left(
                        self.total_inflow_change(),
                        self.voucher.data.shares as int,
                        self.fanout.data.total_shares as int,
                        self.voucher.data.total_dust as int,
                    ) as u64,
                    ..self.voucher.data
                },
                ..self.voucher
            },
            ..self
        }
    }

    /// The accounts once the tokens are paid and `amount` is what the token
    /// account of the fanout still holds: the voucher has claimed all of the
    /// inflow, and the balance that is left is not counted as inflow again.
    pub open spec fn settled(self, amount: u64) -> ClaimV0 {
        ClaimV0 {
            fanout_token_account: Account {
                data: TokenAccount { amount },
                ..self.fanout_token_account
            },
            voucher: Account {
                data: VoucherV0 {
                    last_claimed_inflow: self.token_inflow.data.total_inflow,
                    ..self.voucher.data
                },
                ..self.voucher
            },
            token_inflow: Account {
                data: TokenInflowV0 { last_snapshot_amount: amount, ..self.token_inflow.data },
                ..self.token_inflow
            },
            ..self
        }
    }

    /// Whether the share has gone to another wallet since the voucher last
    /// looked.
    pub open spec fn wallet_changed(self) -> bool {
        self.voucher.data.wallet != self.wallet_share.data.wallet
    }

    /// The accounts once the voucher has taken over the shares and the wallet
    /// of its wallet share.
    pub open spec fn refreshed(self) -> ClaimV0 {
        ClaimV0 {
            voucher: Account {
                data: VoucherV0 {
                    shares: self.wallet_share.data.shares,
                    wallet: self.wallet_share.data.wallet,
                    ..self.voucher.data
                },
                ..self.voucher
            },
            ..self
        }
    }

    /// The accounts of the claim that pays the wallet of the wallet share
    /// into its token account `receiver`.
    pub open spec fn next_claim(self, receiver: Pubkey) -> ClaimAccounts {
        ClaimAccounts {
            fanout: self.fanout.key,
            cron_job: self.cron_job,
            cron_job_transaction: self.cron_job_transaction,
            queue_authority: self.queue_authority,
            token_inflow: self.token_inflow.key,
            voucher: self.voucher.key,
            wallet_share: self.wallet_share.key,
            wallet: self.wallet_share.data.wallet,
            mint: self.mint,
            fanout_token_account: self.fanout_token_account.key,
            receiver_token_account: receiver,
            token_program: Pubkey { bytes: TOKEN_PROGRAM_ID },
            cron_program: self.cron_program,
            system_program: self.system_program,
        }
    }

    /// The address of the token account that the wallet of the wallet share
    /// has for the mint.
    pub open spec fn next_receiver(self) -> Option<Seq<u8>> {
        associated_token_address(self.wallet_share.data.wallet, self.mint)
    }

    /// `step` replaces the cron transaction of the voucher by the claim that
    /// pays the wallet of the wallet share.
    pub open spec fn reschedules(self, step: ClaimStep) -> bool {
        match step {
            ClaimStep::Reschedule { remove, add } => {
                &&& remove.index == self.voucher.data.cron_transaction_id
                &&& add.index == self.voucher.data.cron_transaction_id
                &&& exists|receiver: Pubkey|
                    self.next_receiver() == Some(receiver@) && is_claim(
                        add.transaction_source,
                        self.next_claim(receiver),
                    )
            },
            _ => false,
        }
    }

    /// `after` and `step` are what `resync` makes of these accounts when it
    /// succeeds.
    pub open spec fn resynced(self, after: ClaimV0, step: ClaimStep) -> bool {
        &&& after == self.refreshed()
        &&& if self.wallet_changed() {
            self.reschedules(step)
        } else {
            step == ClaimStep::Done
        }
    }

    /// `resync` fails on these accounts: the share has gone to another
    /// wallet, and no token account derives for it.
    pub open spec fn resync_fails(self) -> bool {
        self.wallet_changed() && self.next_receiver().is_none()
    }

    /// The step that replaces the cron transaction of the voucher by
    /// `transaction`.
    pub open spec fn reschedule_with(self, transaction: CompiledTransactionV0) -> ClaimStep {
        ClaimStep::Reschedule {
            remove: RemoveCronTransactionArgsV0 { index: self.voucher.data.cron_transaction_id },
            add: AddCronTransactionArgsV0 {
                index: self.voucher.data.cron_transaction_id,
                transaction_source: TransactionSourceV0::CompiledV0(transaction),
            },
        }
    }
}

/// The last part of a claim where the share has gone to another wallet and
/// `compiled` is what the compiler made of the claim that pays it: the
/// voucher takes over the shares and the wallet of its wallet share, and the
/// scheduler gets that claim in place of the one it has.
pub fn reschedule(ctx: &mut ClaimV0, compiled: Result<CompiledTransactionV0, AnchorError>) -> (r:
    Result<ClaimStep, ErrorCode>)
    ensures
        match compiled {
            Ok(transaction) => r == Ok::<ClaimStep, ErrorCode>(
                old(ctx).reschedule_with(transaction),
            ) && *final(ctx) == old(ctx).refreshed(),
            Err(_) => r == Err::<ClaimStep, ErrorCode>(ErrorCode::TransactionNotCompiled)
                && *final(ctx) == *old(ctx),
        },
{
    let transaction_source = match compiled {
        Ok(transaction) => TransactionSourceV0::CompiledV0(transaction),
        Err(_) => { return Err(ErrorCode::TransactionNotCompiled); },
    };
    let index = ctx.voucher.data.cron_transaction_id;
    ctx.voucher.data.shares = ctx.wallet_share.data.shares;
    ctx.voucher.data.wallet = ctx.wallet_share.data.wallet;
    Ok(
        ClaimStep::Reschedule {
            remove: RemoveCronTransactionArgsV0 { index },
            add: AddCronTransactionArgsV0 { index, transaction_source },
        },
    )
}

/// The last part of a claim: the voucher takes over the shares and the
/// wallet of its wallet share. Where the wallet is another than before, the
/// scheduler has to run another claim from now on. This fails only where no
/// token account derives for the new wallet.
pub fn resync(ctx: &mut ClaimV0) -> (r: Result<ClaimStep, ErrorCode>)
    ensures
        match r {
            Ok(step) => !old(ctx).resync_fails() && old(ctx).resynced(*final(ctx), step),
            Err(e) => old(ctx).resync_fails() && e == ErrorCode::InvalidSeeds && *final(ctx)
                == *old(ctx),
        },
        old(ctx).wallet_changed() && old(ctx).next_receiver().is_some() ==> r is Ok,
        !old(ctx).wallet_changed() ==> r is Ok,
        final(ctx).fanout == old(ctx).fanout,
        final(ctx).token_inflow == old(ctx).token_inflow,
{
    let wallet = ctx.wallet_share.data.wallet;
    if ctx.voucher.data.wallet.equals(&wallet) {
        ctx.voucher.data.shares = ctx.wallet_share.data.shares;
        ctx.voucher.data.wallet = wallet;
        return Ok(ClaimStep::Done);
    }
    let receiver = match get_associated_token_address(&wallet, &ctx.mint) {
        Some(receiver) => receiver,
        None => { return Err(ErrorCode::InvalidSeeds); },
    };
    let accounts = ClaimAccounts {
        fanout: ctx.fanout.key,
        cron_job: ctx.cron_job,
        cron_job_transaction: ctx.cron_job_transaction,
        queue_authority: ctx.queue_authority,
        token_inflow: ctx.token_inflow.key,
        voucher: ctx.voucher.key,
        wallet_share: ctx.wallet_share.key,
        wallet,
        mint: ctx.mint,
        fanout_token_account: ctx.fanout_token_account.key,
        receiver_token_account: receiver,
        token_program: Pubkey { bytes: TOKEN_PROGRAM_ID },
        cron_program: ctx.cron_program,
        system_program: ctx.system_program,
    };
    assert(accounts == ctx.next_claim(receiver));
    reschedule(ctx, compile_claim(&accounts))
}

/// Works out a claim without changing anything: the token inflow brought up
/// to date, and what the voucher is paid and left with.
pub fn plan(ctx: &ClaimV0) -> (r: Result<(TokenInflowV0, Distribution), ErrorCode>)
    ensures
        match r {
            Ok((token_inflow, distribution)) => {
                &&& ctx.claimable()
                &&& token_inflow == ctx.distributed().token_inflow.data
                &&& distribution.amount == ctx.amount()
                &&& distribution.total_dust == ctx.distributed().voucher.data.total_dust
            },
            Err(e) => !ctx.claimable() && e == ErrorCode::ArithmeticError,
        },
{
    let mut token_inflow = ctx.token_inflow.data;
    match token_inflow.update_total_inflow(ctx.fanout_token_account.data.amount, &ctx.fanout.data) {
        Ok(()) => {},
        Err(e) => { return Err(e); },
    }
    // Calculate claimable amount
    if token_inflow.total_inflow < ctx.voucher.data.last_claimed_inflow {
        return Err(ErrorCode::ArithmeticError);
    }
    let total_inflow_change = token_inflow.total_inflow - ctx.voucher.data.last_claimed_inflow;
    match distribute(
        total_inflow_change,
        ctx.voucher.data.shares,
        ctx.fanout.data.total_shares,
        ctx.voucher.data.total_dust,
    ) {
        Ok(distribution) => Ok((token_inflow, distribution)),
        Err(e) => Err(e),
    }
}

/// The first part of a claim: works out what the voucher is paid. Where
/// that is nothing, the claim is carried out at once: the total inflow is
/// brought up to date, the voucher keeps the dust, and the claim goes on to
/// its last part. Where tokens are to be paid, nothing is changed before
/// they are: the caller pays them and then calls `settle`.
pub fn handler(ctx: &mut ClaimV0) -> (r: Result<ClaimStep, ErrorCode>)
    ensures
        match r {
            Ok(step) => {
                &&& old(ctx).claimable()
                &&& if old(ctx).amount() > 0 {
                    &&& step == ClaimStep::Transfer(old(ctx).transfer())
                    &&& *final(ctx) == *old(ctx)
                } else {
                    &&& !old(ctx).resync_fails()
                    &&& old(ctx).distributed().resynced(*final(ctx), step)
                }
            },
            Err(e) => {
                &&& *final(ctx) == *old(ctx)
                &&& if old(ctx).claimable() {
                    old(ctx).amount() == 0 && old(ctx).resync_fails() && e
                        == ErrorCode::InvalidSeeds
                } else {
                    e == ErrorCode::ArithmeticError
                }
            },
        },
        old(ctx).claimable() && (old(ctx).amount() > 0 || !old(ctx).wallet_changed() || old(
            ctx,
        ).next_receiver().is_some()) ==> r is Ok,
        final(ctx).fanout == old(ctx).fanout,
        final(ctx).token_inflow.data.total_inflow >= old(ctx).token_inflow.data.total_inflow,
        final(ctx).voucher.data.total_dust < 2 * TWELVE_PREC || final(ctx).voucher == old(
            ctx,
        ).voucher,
{
    let (token_inflow, distribution) = match plan(ctx) {
        Ok(planned) => planned,
        Err(e) => { return Err(e); },
    };
    if distribution.amount > 0 {
        return Ok(
            ClaimStep::Transfer(
                Transfer {
                    from: ctx.fanout_token_account.key,
                    to: ctx.receiver_token_account,
                    authority: ctx.fanout.key,
                    amount: distribution.amount,
                },
            ),
        );
    }
    let ghost before = *ctx;
    let voucher = ctx.voucher.data;
    let inflow = ctx.token_inflow.data;
    ctx.token_inflow.data = token_inflow;
    ctx.voucher.data.total_dust = distribution.total_dust;
    assert(*ctx == before.distributed());
    match resync(ctx) {
        Ok(step) => Ok(step),
        Err(e) => {
            ctx.token_inflow.data = inflow;
            ctx.voucher.data = voucher;
            assert(*ctx == before);
            Err(e)
        },
    }
}

impl ClaimV0 {
    /// The error with which a claim cannot be settled, if there is one: it
    /// cannot be worked out, it pays nothing, or no token account derives
    /// for the wallet that the share has gone to.
    pub open spec fn settle_refusal(self) -> Option<ErrorCode> {
        if !self.claimable() {
            Some(ErrorCode::ArithmeticError)
        } else if self.amount() == 0 {
            Some(ErrorCode::NothingToSettle)
        } else if self.resync_fails() {
            Some(ErrorCode::InvalidSeeds)
        } else {
            None
        }
    }
}

/// The rest of a claim, after its tokens are paid: `amount` is what the
/// token account of the fanout holds now. The total inflow is brought up to
/// what the account held before, the voucher keeps the dust and has then
/// claimed all of the inflow, and the claim goes on to its last part. A
/// claim that pays nothing is not settled: its voucher stays where it is.
pub fn settle(ctx: &mut ClaimV0, amount: u64) -> (r: Result<ClaimStep, ErrorCode>)
    ensures
        match r {
            Ok(step) => {
                &&& old(ctx).settle_refusal().is_none()
                &&& old(ctx).distributed().settled(amount).resynced(*final(ctx), step)
            },
            Err(e) => old(ctx).settle_refusal() == Some(e) && *final(ctx) == *old(ctx),
        },
        final(ctx).fanout == old(ctx).fanout,
        final(ctx).token_inflow.data.total_inflow >= old(ctx).token_inflow.data.total_inflow,
        r is Ok ==> final(ctx).voucher.data.last_claimed_inflow
            == final(ctx).token_inflow.data.total_inflow,
        r is Ok ==> final(ctx).voucher.data.total_dust < 2 * TWELVE_PREC,
{
    let (token_inflow, distribution) = match plan(ctx) {
        Ok(planned) => planned,
        Err(e) => { return Err(e); },
    };
    if distribution.amount == 0 {
        return Err(ErrorCode::NothingToSettle);
    }
    let ghost before = *ctx;
    let balance = ctx.fanout_token_account.data.amount;
    let voucher = ctx.voucher.data;
    let inflow = ctx.token_inflow.data;
    ctx.token_inflow.data = token_inflow;
    ctx.voucher.data.total_dust = distribution.total_dust;
    assert(*ctx == before.distributed());
    ctx.fanout_token_account.data.amount = amount;
    // Update voucher
    ctx.voucher.data.last_claimed_inflow = ctx.token_inflow.data.total_inflow;
    ctx.token_inflow.data.last_snapshot_amount = amount;
    assert(*ctx == before.distributed().settled(amount));
    match resync(ctx) {
        Ok(step) => Ok(step),
        Err(e) => {
            ctx.fanout_token_account.data.amount = balance;
            ctx.voucher.data = voucher;
            ctx.token_inflow.data = inflow;
            assert(*ctx == before);
            Err(e)
        },
    }
}

} // verus!
