use std::str::FromStr;

use wallet_fanout::instruction::{AccountMeta, CompiledTransactionV0, Instruction};
use wallet_fanout::instructions::initialize_fanout_v0::hash_name;
use wallet_fanout::program::{
    fanout_seeds, id, queue_authority_seeds, ASSOCIATED_TOKEN_PROGRAM_ID, ID, TOKEN_PROGRAM_ID,
};
use wallet_fanout::pubkey::Pubkey;
use wallet_fanout::scheduler::{
    compile_claim, get_associated_token_address, ClaimAccounts, CLAIM_DISCRIMINATOR,
};
use wallet_fanout::state::FanoutV0;

fn pk(n: u8) -> Pubkey {
    Pubkey { bytes: [n; 32] }
}

fn accounts() -> ClaimAccounts {
    ClaimAccounts {
        fanout: pk(1),
        cron_job: pk(2),
        cron_job_transaction: pk(3),
        queue_authority: pk(4),
        token_inflow: pk(5),
        voucher: pk(6),
        wallet_share: pk(7),
        wallet: pk(8),
        mint: pk(9),
        fanout_token_account: pk(10),
        receiver_token_account: pk(11),
        token_program: pk(12),
        cron_program: pk(13),
        system_program: pk(14),
    }
}

#[test]
fn pubkey_knows_the_zero_address() {
    assert_eq!(Pubkey::default(), Pubkey { bytes: [0; 32] });
    assert!(Pubkey::default().is_default());
    let mut bytes = [0u8; 32];
    bytes[31] = 1;
    assert!(!Pubkey::new_from_array(bytes).is_default());
    assert_eq!(Pubkey::new_from_array(bytes).to_bytes(), bytes);
}

#[test]
fn pubkeys_are_equal_when_all_bytes_are() {
    let mut bytes = [7u8; 32];
    assert!(pk(7).equals(&Pubkey::new_from_array(bytes)));
    bytes[31] = 8;
    assert!(!pk(7).equals(&Pubkey::new_from_array(bytes)));
    bytes[31] = 7;
    bytes[0] = 6;
    assert!(!pk(7).equals(&Pubkey::new_from_array(bytes)));
}

#[test]
fn program_ids_are_the_known_addresses() {
    let program =
        anchor_lang::prelude::Pubkey::from_str("fanqeMu3fw8R4LwKNbahPtYXJsyLL6NXyfe2BqzhfB6").unwrap();
    assert_eq!(ID, program.to_bytes());
    assert_eq!(id().bytes, ID);
    assert_eq!(TOKEN_PROGRAM_ID, anchor_spl::token::ID.to_bytes());
    assert_eq!(ASSOCIATED_TOKEN_PROGRAM_ID, anchor_spl::associated_token::ID.to_bytes());
}

#[test]
fn hash_name_is_sha256() {
    let abc: [u8; 32] = [
        0xba, 0x78, 0x16, 0xbf, 0x8f, 0x01, 0xcf, 0xea, 0x41, 0x41, 0x40, 0xde, 0x5d, 0xae, 0x22,
        0x23, 0xb0, 0x03, 0x61, 0xa3, 0x96, 0x17, 0x7a, 0x9c, 0xb4, 0x10, 0xff, 0x61, 0xf2, 0x00,
        0x15, 0xad,
    ];
    assert_eq!(hash_name("abc"), abc);
    let empty: [u8; 32] = [
        0xe3, 0xb0, 0xc4, 0x42, 0x98, 0xfc, 0x1c, 0x14, 0x9a, 0xfb, 0xf4, 0xc8, 0x99, 0x6f, 0xb9,
        0x24, 0x27, 0xae, 0x41, 0xe4, 0x64, 0x9b, 0x93, 0x4c, 0xa4, 0x95, 0x99, 0x1b, 0x78, 0x52,
        0xb8, 0x55,
    ];
    assert_eq!(hash_name(""), empty);
    assert_eq!(
        hash_name("royalties"),
        anchor_lang::solana_program::hash::hash("royalties".as_bytes()).to_bytes()
    );
}

#[test]
fn claim_discriminator_is_the_digest_of_the_instruction_name() {
    assert_eq!(CLAIM_DISCRIMINATOR[..], hash_name("global:claim_v0")[..8]);
}

#[test]
fn fanout_signs_with_the_digest_of_its_name() {
    let fanout = FanoutV0 {
        name: "royalties".to_string(),
        bump: 253,
        queue_authority_bump: 251,
        ..FanoutV0::default()
    };
    assert_eq!(
        fanout_seeds(&fanout),
        vec![b"fanout".to_vec(), hash_name("royalties").to_vec(), vec![253]]
    );
    assert_eq!(queue_authority_seeds(&fanout), vec![b"queue_authority".to_vec(), vec![251]]);
}

#[test]
fn associated_token_address_is_that_of_the_token_program() {
    for (wallet, mint) in [(8u8, 9u8), (9, 8), (0, 0), (255, 1), (88, 9)] {
        let expected = anchor_spl::associated_token::get_associated_token_address(
            &anchor_lang::prelude::Pubkey::new_from_array([wallet; 32]),
            &anchor_lang::prelude::Pubkey::new_from_array([mint; 32]),
        );
        let found = get_associated_token_address(&pk(wallet), &pk(mint)).unwrap();
        assert_eq!(found.bytes, expected.to_bytes());
        assert_ne!(found, pk(wallet));
    }
}

#[test]
fn claim_takes_its_accounts_in_order() {
    let metas = accounts().to_account_metas();
    let writable = [false, true, true, false, true, true, false, false, false, true, true, false, false, false];
    assert_eq!(metas.len(), 14);
    for (i, meta) in metas.iter().enumerate() {
        assert_eq!(
            *meta,
            AccountMeta { pubkey: pk(i as u8 + 1), is_signer: false, is_writable: writable[i] }
        );
    }
    assert_eq!(AccountMeta::new(pk(1), true), AccountMeta { pubkey: pk(1), is_signer: true, is_writable: true });
    assert_eq!(
        AccountMeta::new_readonly(pk(1), false),
        AccountMeta { pubkey: pk(1), is_signer: false, is_writable: false }
    );
}

#[test]
fn claim_is_an_instruction_of_this_program() {
    let instruction = accounts().to_instruction();
    assert_eq!(
        instruction,
        Instruction {
            program_id: id(),
            accounts: accounts().to_account_metas(),
            data: vec![201, 15, 24, 84, 22, 121, 50, 251],
        }
    );
}

/// The instruction that `transaction` holds at `at`, written out again.
fn expand(transaction: &CompiledTransactionV0, at: usize) -> Instruction {
    let signers = (transaction.num_rw_signers + transaction.num_ro_signers) as usize;
    let compiled = &transaction.instructions[at];
    Instruction {
        program_id: transaction.accounts[compiled.program_id_index as usize],
        accounts: compiled
            .accounts
            .iter()
            .map(|index| {
                let i = *index as usize;
                AccountMeta {
                    pubkey: transaction.accounts[i],
                    is_signer: i < signers,
                    is_writable: i < transaction.num_rw_signers as usize
                        || (i >= signers && i < signers + transaction.num_rw as usize),
                }
            })
            .collect(),
        data: compiled.data.clone(),
    }
}

#[test]
fn compiled_claim_expands_to_the_claim() {
    for _ in 0..8 {
        let transaction = compile_claim(&accounts()).unwrap();
        assert_eq!(transaction.instructions.len(), 1);
        assert_eq!(expand(&transaction, 0), accounts().to_instruction());
        // the program and the fourteen accounts, each once
        let mut table = transaction.accounts.clone();
        table.sort_by_key(|key| key.bytes);
        let mut expected: Vec<Pubkey> = (1..=14).map(pk).collect();
        expected.push(id());
        expected.sort_by_key(|key| key.bytes);
        assert_eq!(table, expected);
        assert_eq!(transaction.num_rw_signers, 0);
        assert_eq!(transaction.num_ro_signers, 0);
        assert_eq!(transaction.num_rw, 6);
        assert!(transaction.signer_seeds.is_empty());
    }
}

#[test]
fn compiled_claim_holds_an_address_once_with_all_its_rights() {
    // the wallet is also the queue authority, the voucher also the wallet share
    let mut same = accounts();
    same.queue_authority = same.wallet;
    same.wallet_share = same.voucher;
    let transaction = compile_claim(&same).unwrap();
    assert_eq!(transaction.accounts.len(), 13);
    assert_eq!(transaction.num_rw, 6);
    let expanded = expand(&transaction, 0);
    assert_eq!(expanded.program_id, id());
    assert_eq!(expanded.data, same.to_instruction().data);
    let wanted = same.to_account_metas();
    for (i, meta) in expanded.accounts.iter().enumerate() {
        assert_eq!(meta.pubkey, wanted[i].pubkey);
        // an address may be changed where any of its entries says so
        let may_change = wanted.iter().any(|w| w.pubkey == meta.pubkey && w.is_writable);
        assert_eq!(meta.is_writable, may_change);
        assert!(!meta.is_signer);
    }
}

#[test]
fn compiled_claim_is_what_tuktuk_compiles() {
    let ours = compile_claim(&accounts()).unwrap();
    let instruction = anchor_lang::solana_program::instruction::Instruction {
        program_id: anchor_lang::prelude::Pubkey::new_from_array(ID),
        accounts: accounts()
            .to_account_metas()
            .iter()
            .map(|m| anchor_lang::prelude::AccountMeta {
                pubkey: anchor_lang::prelude::Pubkey::new_from_array(m.pubkey.bytes),
                is_signer: m.is_signer,
                is_writable: m.is_writable,
            })
            .collect(),
        data: CLAIM_DISCRIMINATOR.to_vec(),
    };
    let (theirs, _) = tuktuk_program::compile_transaction(vec![instruction], vec![]).unwrap();
    assert_eq!(ours.num_rw_signers, theirs.num_rw_signers);
    assert_eq!(ours.num_ro_signers, theirs.num_ro_signers);
    assert_eq!(ours.num_rw, theirs.num_rw);
    assert_eq!(ours.accounts.len(), theirs.accounts.len());
    assert_eq!(ours.instructions.len(), theirs.instructions.len());
    assert_eq!(ours.instructions[0].data, theirs.instructions[0].data);
}

#[test]
fn the_claim_is_always_compiled() {
    for wallet in 0..=255u8 {
        let mut claim = accounts();
        claim.wallet = pk(wallet);
        claim.receiver_token_account = pk(wallet.wrapping_mul(7));
        assert!(compile_claim(&claim).is_ok());
    }
}
