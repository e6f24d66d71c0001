//! What the library takes on trust from the crates it is built on.
use vstd::prelude::*;
use anchor_lang::error::Error as AnchorError;
use anchor_lang::solana_program::instruction::AccountMeta as SolanaAccountMeta;
use anchor_lang::solana_program::instruction::Instruction as SolanaInstruction;
use anchor_lang::solana_program::pubkey::Pubkey as SolanaPubkey;
use tuktuk_program::compile_transaction;
use crate::instruction::{CompiledInstructionV0, CompiledTransactionV0, Instruction};
use crate::pubkey::Pubkey;

verus! {

/// The error type of `anchor_lang`. Nothing is known of its values: they are
/// only handed on.
#[verifier::external_type_specification]
#[verifier::external_body]
pub struct ExAnchorError(anchor_lang::error::Error);

/// The SHA-256 digest of `data`.
pub uninterp spec fn sha256(data: Seq<u8>) -> Seq<u8>;

/// `anchor_lang::solana_program::hash::hash`. Taken on trust: what it
/// returns is the SHA-256 digest of `val`, the same for the same bytes.
#[verifier::external_body]
pub(crate) fn hash(val: &[u8]) -> (r: [u8; 32])
    ensures
        r@ == sha256(val@),
{
    anchor_lang::solana_program::hash::hash(val).to_bytes()
}

/// The address that `program` derives from `seeds`, and the bump seed that
/// gave it, if any bump seed gives one.
pub uninterp spec fn program_address(seeds: Seq<Seq<u8>>, program: Seq<u8>) -> Option<
    (Seq<u8>, u8),
>;

/// The seeds as sequences of bytes.
pub open spec fn seeds_view(seeds: Seq<Vec<u8>>) -> Seq<Seq<u8>> {
    Seq::new(seeds.len(), |i: int| seeds[i]@)
}

/// `Pubkey::try_find_program_address` of `anchor_lang::solana_program`.
/// Taken on trust: whether it finds an address, and which address and bump
/// seed it finds, depends on the bytes of `seeds` and `program` alone.
#[verifier::external_body]
pub(crate) fn try_find_program_address(seeds: &Vec<Vec<u8>>, program: &Pubkey) -> (r: Option<
    (Pubkey, u8),
>)
    ensures
        match r {
            Some((address, bump)) => program_address(seeds_view(seeds@), program@) == Some(
                (address@, bump),
            ),
            None => program_address(seeds_view(seeds@), program@).is_none(),
        },
{
    let seeds: Vec<&[u8]> = seeds.iter().map(|seed| seed.as_slice()).collect();
    let program = SolanaPubkey::new_from_array(program.bytes);
    SolanaPubkey::try_find_program_address(&seeds, &program).map(
        |(address, bump)| (Pubkey { bytes: address.to_bytes() }, bump),
    )
}

/// `tuktuk_program::compile_transaction`, called with the one instruction
/// `instruction` and no signer seeds. Taken on trust: it returns a
/// transaction, for it has no path on which it fails; the table of that
/// transaction holds each address that the instruction names once and no
/// other, signers first and of them and of the rest those first that may be
/// changed; the counts say where each group ends; the one compiled
/// instruction points at the program and the accounts of `instruction` in
/// their order and has its data; and there are no signer seeds. The order
/// within a group is not fixed, so two calls may differ. More than 255
/// addresses would not fit its counters.
#[verifier::external_body]
pub(crate) fn compile(instruction: Instruction) -> (r: Result<CompiledTransactionV0, AnchorError>)
    requires
        instruction.accounts@.len() < 255,
    ensures
        r is Ok,
        r matches Ok(transaction) ==> transaction.compiles(instruction@),
{
    let (tx, _) = compile_transaction(vec![SolanaInstruction {
        program_id: instruction.program_id.bytes.into(),
        accounts: instruction.accounts.iter().map(|m| SolanaAccountMeta { pubkey: m.pubkey.bytes.into(), is_signer: m.is_signer, is_writable: m.is_writable }).collect(),
        data: instruction.data
    }], vec![])?;
    Ok(CompiledTransactionV0 {
        num_rw_signers: tx.num_rw_signers,
        num_ro_signers: tx.num_ro_signers,
        num_rw: tx.num_rw,
        accounts: tx.accounts.iter().map(|key| Pubkey { bytes: key.to_bytes() }).collect(),
        instructions: tx.instructions.into_iter().map(|ix| CompiledInstructionV0 { program_id_index: ix.program_id_index, accounts: ix.accounts, data: ix.data }).collect(),
        signer_seeds: tx.signer_seeds
    })
}

} // verus!
