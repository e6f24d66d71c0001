//! What goes to the cron scheduler: the arguments of its instructions, and
//! the claim that it is to run for a voucher.
use vstd::prelude::*;
use vstd::slice::slice_to_vec;
use anchor_lang::error::Error as AnchorError;
use crate::instruction::{AccountMeta, CompiledTransactionV0, Instruction, InstructionView};
use crate::outside::{compile, program_address, seeds_view, try_find_program_address};
use crate::program::{id, ASSOCIATED_TOKEN_PROGRAM_ID, ID, TOKEN_PROGRAM_ID};
use crate::pubkey::Pubkey;

verus! {

/// Where the scheduler finds the transaction that it is to run.
#[derive(Clone, Debug, PartialEq, Eq)]
pub enum TransactionSourceV0 {
    CompiledV0(CompiledTransactionV0),
    RemoteV0 { url: String, signer: Pubkey },
}

/// The arguments with which a cron job is set up.
#[derive(Clone, Debug, PartialEq, Eq)]
pub struct InitializeCronJobArgsV0 {
    pub schedule: String,
    pub name: String,
    pub free_tasks_per_transaction: u8,
    pub num_tasks_per_queue_call: u8,
}

/// The arguments with which a transaction is put into a cron job.
#[derive(Clone, Debug, PartialEq, Eq)]
pub struct AddCronTransactionArgsV0 {
    pub index: u32,
    pub transaction_source: TransactionSourceV0,
}

/// The arguments with which a transaction is taken out of a cron job.
#[derive(Clone, Copy, Debug, PartialEq, Eq)]
pub struct RemoveCronTransactionArgsV0 {
    pub index: u32,
}

/// The arguments with which the task of a cron job is queued again.
#[derive(Clone, Copy, Debug, PartialEq, Eq)]
pub struct RequeueCronTaskArgsV0 {
    pub task_id: u16,
}

/// The first bytes of the data of a claim: they say which instruction of this
/// program is meant.
pub const CLAIM_DISCRIMINATOR: [u8; 8] = [201, 15, 24, 84, 22, 121, 50, 251];

/// The accounts of a claim, in the order in which the instruction takes them.
#[derive(Clone, Copy, Debug, PartialEq, Eq)]
pub struct ClaimAccounts {
    pub fanout: Pubkey,
    pub cron_job: Pubkey,
    pub cron_job_transaction: Pubkey,
    pub queue_authority: Pubkey,
    pub token_inflow: Pubkey,
    pub voucher: Pubkey,
    pub wallet_share: Pubkey,
    pub wallet: Pubkey,
    pub mint: Pubkey,
    pub fanout_token_account: Pubkey,
    pub receiver_token_account: Pubkey,
    pub token_program: Pubkey,
    pub cron_program: Pubkey,
    pub system_program: Pubkey,
}

/// An account that an instruction only reads and that does not sign.
pub open spec fn read_only(pubkey: Pubkey) -> AccountMeta {
    AccountMeta { pubkey, is_signer: false, is_writable: false }
}

/// An account that an instruction may change and that does not sign.
pub open spec fn writable(pubkey: Pubkey) -> AccountMeta {
    AccountMeta { pubkey, is_signer: false, is_writable: true }
}

impl ClaimAccounts {
    /// The accounts as the claim takes them: nobody signs, and the claim may
    /// change the cron job and its transaction, the token inflow, the voucher
    /// and the two token accounts.
    pub open spec fn metas(self) -> Seq<AccountMeta> {
        seq![
            read_only(self.fanout),
            writable(self.cron_job),
            writable(self.cron_job_transaction),
            read_only(self.queue_authority),
            writable(self.token_inflow),
            writable(self.voucher),
            read_only(self.wallet_share),
            read_only(self.wallet),
            read_only(self.mint),
            writable(self.fanout_token_account),
            writable(self.receiver_token_account),
            read_only(self.token_program),
            read_only(self.cron_program),
            read_only(self.system_program),
        ]
    }

    /// The claim on these accounts, as an instruction of this program.
    pub open spec fn instruction(self) -> InstructionView {
        InstructionView {
            program_id: Pubkey { bytes: ID },
            accounts: self.metas(),
            data: CLAIM_DISCRIMINATOR@,
        }
    }

    /// The accounts as the claim takes them.
    pub fn to_account_metas(&self) -> (r: Vec<AccountMeta>)
        ensures
            r@ == self.metas(),
    {
        let mut account_metas: Vec<AccountMeta> = Vec::new();
        account_metas.push(AccountMeta::new_readonly(self.fanout, false));
        account_metas.push(AccountMeta::new(self.cron_job, false));
        account_metas.push(AccountMeta::new(self.cron_job_transaction, false));
        account_metas.push(AccountMeta::new_readonly(self.queue_authority, false));
        account_metas.push(AccountMeta::new(self.token_inflow, false));
        account_metas.push(AccountMeta::new(self.voucher, false));
        account_metas.push(AccountMeta::new_readonly(self.wallet_share, false));
        account_metas.push(AccountMeta::new_readonly(self.wallet, false));
        account_metas.push(AccountMeta::new_readonly(self.mint, false));
        account_metas.push(AccountMeta::new(self.fanout_token_account, false));
        account_metas.push(AccountMeta::new(self.receiver_token_account, false));
        account_metas.push(AccountMeta::new_readonly(self.token_program, false));
        account_metas.push(AccountMeta::new_readonly(self.cron_program, false));
        account_metas.push(AccountMeta::new_readonly(self.system_program, false));
        assert(account_metas@ =~= self.metas());
        account_metas
    }

    /// The claim on these accounts, as an instruction of this program.
    pub fn to_instruction(&self) -> (r: Instruction)
        ensures
            r@ == self.instruction(),
    {
        Instruction {
            program_id: id(),
            accounts: self.to_account_metas(),
            data: slice_to_vec(CLAIM_DISCRIMINATOR.as_slice()),
        }
    }
}

/// The address of the token account that `wallet` has for `mint`, if the
/// associated token account program derives one.
pub open spec fn associated_token_address(wallet: Pubkey, mint: Pubkey) -> Option<Seq<u8>> {
    match program_address(
        seq![wallet@, TOKEN_PROGRAM_ID@, mint@],
        ASSOCIATED_TOKEN_PROGRAM_ID@,
    ) {
        Some((address, _)) => Some(address),
        None => None,
    }
}

/// The address of the token account that `wallet` has for `mint`.
pub fn get_associated_token_address(wallet: &Pubkey, mint: &Pubkey) -> (r: Option<Pubkey>)
    ensures
        match r {
            Some(address) => associated_token_address(*wallet, *mint) == Some(address@),
            None => associated_token_address(*wallet, *mint).is_none(),
        },
{
    let mut seeds: Vec<Vec<u8>> = Vec::new();
    seeds.push(slice_to_vec(wallet.bytes.as_slice()));
    seeds.push(slice_to_vec(TOKEN_PROGRAM_ID.as_slice()));
    seeds.push(slice_to_vec(mint.bytes.as_slice()));
    assert(seeds_view(seeds@) =~= seq![wallet@, TOKEN_PROGRAM_ID@, mint@]);
    let program = Pubkey { bytes: ASSOCIATED_TOKEN_PROGRAM_ID };
    match try_find_program_address(&seeds, &program) {
        Some((address, _)) => Some(address),
        None => None,
    }
}

/// `source` is the claim on `accounts`, compiled.
pub open spec fn is_claim(source: TransactionSourceV0, accounts: ClaimAccounts) -> bool {
    match source {
        TransactionSourceV0::CompiledV0(transaction) => transaction.compiles(
            accounts.instruction(),
        ),
        TransactionSourceV0::RemoteV0 { .. } => false,
    }
}

/// Compiles the claim on `accounts` into the form in which the scheduler
/// keeps it. The compiler decides the order of the addresses in the table,
/// so two calls may give two transactions; each of them is the claim.
pub fn compile_claim(accounts: &ClaimAccounts) -> (r: Result<CompiledTransactionV0, AnchorError>)
    ensures
        r is Ok,
        r matches Ok(transaction) ==> transaction.compiles(accounts.instruction()),
{
    let instruction = accounts.to_instruction();
    assert(instruction@.accounts.len() == 14);
    compile(instruction)
}

} // verus!
