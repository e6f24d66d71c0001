//! Instructions, and transactions in the form in which the scheduler keeps
//! them.
use vstd::prelude::*;
use crate::pubkey::Pubkey;

verus! {

/// One account of an instruction, and what the instruction may do with it.
#[derive(Clone, Copy, Debug, PartialEq, Eq)]
pub struct AccountMeta {
    pub pubkey: Pubkey,
    pub is_signer: bool,
    pub is_writable: bool,
}

impl AccountMeta {
    /// An account that the instruction may change.
    pub fn new(pubkey: Pubkey, is_signer: bool) -> (r: AccountMeta)
        ensures
            r == (AccountMeta { pubkey, is_signer, is_writable: true }),
    {
        AccountMeta { pubkey, is_signer, is_writable: true }
    }

    /// An account that the instruction only reads.
    pub fn new_readonly(pubkey: Pubkey, is_signer: bool) -> (r: AccountMeta)
        ensures
            r == (AccountMeta { pubkey, is_signer, is_writable: false }),
    {
        AccountMeta { pubkey, is_signer, is_writable: false }
    }
}

/// A call of a program: the program, the accounts it is given, and its data.
#[derive(Clone, Debug, PartialEq, Eq)]
pub struct Instruction {
    pub program_id: Pubkey,
    pub accounts: Vec<AccountMeta>,
    pub data: Vec<u8>,
}

/// What an instruction says.
pub struct InstructionView {
    pub program_id: Pubkey,
    pub accounts: Seq<AccountMeta>,
    pub data: Seq<u8>,
}

impl View for Instruction {
    type V = InstructionView;

    open spec fn view(&self) -> InstructionView {
        InstructionView { program_id: self.program_id, accounts: self.accounts@, data: self.data@ }
    }
}

impl InstructionView {
    /// The instruction names `key`, as its program or as one of its accounts.
    pub open spec fn names(self, key: Pubkey) -> bool {
        ||| key == self.program_id
        ||| exists|j: int| 0 <= j < self.accounts.len() && self.accounts[j].pubkey == key
    }

    /// The instruction asks for the signature of `key`.
    pub open spec fn signs(self, key: Pubkey) -> bool {
        exists|j: int|
            0 <= j < self.accounts.len() && self.accounts[j].pubkey == key
                && self.accounts[j].is_signer
    }

    /// The instruction may change the account `key`.
    pub open spec fn writes(self, key: Pubkey) -> bool {
        exists|j: int|
            0 <= j < self.accounts.len() && self.accounts[j].pubkey == key
                && self.accounts[j].is_writable
    }
}

/// An instruction whose program and accounts are indexes into a table of
/// addresses.
#[derive(Clone, Debug, PartialEq, Eq)]
pub struct CompiledInstructionV0 {
    pub program_id_index: u8,
    pub accounts: Vec<u8>,
    pub data: Vec<u8>,
}

impl CompiledInstructionV0 {
    /// Read over `table`, this is `instruction`.
    pub open spec fn expands_to(self, table: Seq<Pubkey>, instruction: InstructionView) -> bool {
        &&& self.program_id_index < table.len()
        &&& table[self.program_id_index as int] == instruction.program_id
        &&& self.accounts@.len() == instruction.accounts.len()
        &&& forall|j: int|
            0 <= j < self.accounts@.len() ==> self.accounts@[j] < table.len()
                && table[self.accounts@[j] as int] == instruction.accounts[j].pubkey
        &&& self.data@ == instruction.data
    }
}

/// A transaction in the form in which the scheduler keeps it: a table of
/// addresses and instructions over it. The table holds first the signers that
/// may be changed, then the other signers, then the other accounts that may be
/// changed, then the rest.
#[derive(Clone, Debug, PartialEq, Eq)]
pub struct CompiledTransactionV0 {
    pub num_rw_signers: u8,
    pub num_ro_signers: u8,
    pub num_rw: u8,
    pub accounts: Vec<Pubkey>,
    pub instructions: Vec<CompiledInstructionV0>,
    pub signer_seeds: Vec<Vec<Vec<u8>>>,
}

impl CompiledTransactionV0 {
    /// The address at `i` of the table has to sign.
    pub open spec fn signer_at(self, i: int) -> bool {
        i < self.num_rw_signers + self.num_ro_signers
    }

    /// The account at `i` of the table may be changed.
    pub open spec fn writable_at(self, i: int) -> bool {
        ||| i < self.num_rw_signers
        ||| self.num_rw_signers + self.num_ro_signers <= i < self.num_rw_signers
            + self.num_ro_signers + self.num_rw
    }

    /// This transaction is the one instruction `instruction` and nothing
    /// else: its table holds each address that the instruction names once,
    /// with the rights that the instruction asks for, and no other.
    pub open spec fn compiles(self, instruction: InstructionView) -> bool {
        &&& self.accounts@.no_duplicates()
        &&& forall|i: int|
            0 <= i < self.accounts@.len() ==> {
                &&& instruction.names(self.accounts@[i])
                &&& self.signer_at(i) == instruction.signs(self.accounts@[i])
                &&& self.writable_at(i) == instruction.writes(self.accounts@[i])
            }
        &&& self.instructions@.len() == 1
        &&& self.instructions@[0].expands_to(self.accounts@, instruction)
        &&& self.signer_seeds@.len() == 0
    }
}

} // verus!
