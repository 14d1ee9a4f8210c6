use std::str::FromStr;

use testudo::accounts::{Account, Mint, Signer};
use testudo::custom_accounts::centurion::{Centurion, TestudoData};
use testudo::custom_accounts::legate::Legate;
use testudo::custom_accounts::testudo::Testudo;
use testudo::derivation::VaultSigner;
use testudo::errors::ErrorCode;
use testudo::instructions::initial_whitelist::{initial_whitelist, BONK_MINT, USDC_MINT, USDT_MINT};
use testudo::instructions::swap::{
    build_call, process_swap, settle_swap, DelegatedCall, JupiterInstructionWithIdxs, Realized,
    RemainingAccount, Swap, SwapBalances, SwapStep, WRAPPED_NATIVE,
};
use testudo::pubkey::Pubkey;

const OWNER: u8 = 10;
const UNLOCK: u8 = 11;
const TREASURY: u8 = 2;
const VAULT: u8 = 50;

fn key(fill: u8) -> Pubkey {
    Pubkey::new_from_array([fill; 32])
}

fn signer(fill: u8) -> Signer {
    Signer { key: key(fill), lamports: 1_000_000 }
}

fn usdc() -> Mint {
    Mint { key: Pubkey::new_from_array(USDC_MINT), decimals: 6 }
}

fn usdt() -> Mint {
    Mint { key: Pubkey::new_from_array(USDT_MINT), decimals: 6 }
}

fn bonk() -> Mint {
    Mint { key: Pubkey::new_from_array(BONK_MINT), decimals: 5 }
}

fn line(mint: &Mint, at: u8, count: u64) -> TestudoData {
    TestudoData { token_mint: mint.key, testudo_pubkey: key(at), testudo_token_count: count }
}

fn account(fill: u8, is_signer: bool, is_writable: bool) -> RemainingAccount {
    RemainingAccount { key: key(fill), is_signer, is_writable }
}

fn supplied() -> Vec<RemainingAccount> {
    vec![
        account(80, false, false),
        account(81, false, true),
        account(82, true, false),
        account(83, true, true),
    ]
}

fn request(program: u8, idxs: &[u8], data: &[u8]) -> JupiterInstructionWithIdxs {
    JupiterInstructionWithIdxs { program_id: key(program), accounts_idxs: idxs.to_vec(), data: data.to_vec() }
}

fn swap(index: Vec<TestudoData>) -> Swap {
    Swap {
        authority: signer(OWNER),
        valid_signer_of_password: signer(UNLOCK),
        centurion: Account {
            key: key(VAULT),
            lamports: 2_000_000,
            data: Centurion {
                authority: key(OWNER),
                backup_owner: None,
                pubkey_to_password: key(UNLOCK),
                bump: 253,
                is_initialized: true,
                created_at: 2_000,
                last_accessed: 2_000,
                lamport_balance: 0,
                testudos: index,
            },
        },
        source_testudo: Testudo { key: key(61), owning_centurion: key(VAULT), mint: usdc().key, amount: 500 },
        destination_testudo: Testudo { key: key(60), owning_centurion: key(VAULT), mint: usdt().key, amount: 0 },
        source_mint: usdc(),
        destination_mint: usdt(),
        treasury: key(TREASURY),
        legate: Account {
            key: key(100),
            lamports: 5_000,
            data: Legate {
                authority: key(1),
                bump: 254,
                is_initialized: true,
                last_updated: 1_000,
                max_centurions_per_user: 1,
                max_testudos_per_user: 3,
                max_whitelisted_mints: 50,
                testudo_token_whitelist: initial_whitelist(),
                treasury_acc: key(TREASURY),
                percent_for_fees: 15,
            },
        },
    }
}

fn vault_signs() -> VaultSigner {
    VaultSigner { owner: key(OWNER), bump: 253 }
}

fn call(program: u8, accounts: Vec<RemainingAccount>, data: &[u8]) -> DelegatedCall {
    DelegatedCall { program_id: key(program), accounts, data: data.to_vec(), signer: vault_signs() }
}

#[test]
fn the_marker_is_the_known_identity() {
    let decoded = |text: &str| anchor_lang::prelude::Pubkey::from_str(text).unwrap().to_bytes();
    assert_eq!(WRAPPED_NATIVE, decoded("So11111111111111111111111111111111111111112"));
}

#[test]
fn a_call_sees_the_accounts_that_its_positions_name() {
    let built = build_call(key(30), &request(31, &[3, 0, 0, 1], &[9, 8, 7]), &supplied(), vault_signs()).unwrap();
    assert_eq!(
        built,
        call(
            30,
            vec![
                account(83, true, true),
                account(80, false, false),
                account(80, false, false),
                account(81, false, true),
            ],
            &[9, 8, 7],
        )
    );
    assert_eq!(built.signer.seeds(), vec![b"centurion".to_vec(), vec![OWNER; 32], vec![253]]);
}

#[test]
fn a_call_may_name_no_account_and_carry_no_data() {
    let built = build_call(key(30), &request(31, &[], &[]), &supplied(), vault_signs()).unwrap();
    assert_eq!(built, call(30, vec![], &[]));
    let built = build_call(key(30), &request(31, &[], &[1]), &Vec::new(), vault_signs()).unwrap();
    assert_eq!(built, call(30, vec![], &[1]));
}

#[test]
fn a_call_that_names_a_missing_account_is_refused() {
    assert_eq!(
        build_call(key(30), &request(31, &[0, 4], &[1]), &supplied(), vault_signs()),
        Err(ErrorCode::InvalidRemainingAccounts)
    );
    assert_eq!(
        build_call(key(30), &request(31, &[255], &[1]), &supplied(), vault_signs()),
        Err(ErrorCode::InvalidRemainingAccounts)
    );
    assert_eq!(
        build_call(key(30), &request(31, &[0], &[1]), &Vec::new(), vault_signs()),
        Err(ErrorCode::InvalidRemainingAccounts)
    );
    assert!(build_call(key(30), &request(31, &[3], &[1]), &supplied(), vault_signs()).is_ok());
}

#[test]
fn a_swap_is_set_up_swapped_and_cleaned_up_between_two_readings() {
    let mut ctx = swap(vec![line(&usdt(), 60, 7), line(&usdc(), 61, 500)]);
    let setup = vec![request(40, &[0], &[1]), request(41, &[1, 2], &[2, 2])];
    let steps = process_swap(
        &mut ctx,
        &request(99, &[3, 1], &[5, 5, 5]),
        &setup,
        &request(42, &[2], &[]),
        &Vec::new(),
        &supplied(),
    )
    .unwrap();
    // Each call goes to the program that it names, under the vault's signature.
    assert_eq!(
        steps,
        vec![
            SwapStep::Invoke(call(40, vec![account(80, false, false)], &[1])),
            SwapStep::Invoke(call(41, vec![account(81, false, true), account(82, true, false)], &[2, 2])),
            SwapStep::ReadBalances,
            SwapStep::Invoke(call(99, vec![account(83, true, true), account(81, false, true)], &[5, 5, 5])),
            SwapStep::Invoke(call(42, vec![account(82, true, false)], &[])),
            SwapStep::ReadBalances,
        ]
    );
    assert_eq!(ctx.centurion.data.testudos, vec![line(&usdt(), 60, 7), line(&usdc(), 61, 500)]);
    assert_eq!(ctx.centurion.data.last_accessed, 2_000);
}

#[test]
fn a_swap_without_setup_has_four_steps() {
    let mut ctx = swap(Vec::new());
    let steps = process_swap(
        &mut ctx,
        &request(99, &[], &[]),
        &Vec::new(),
        &request(42, &[], &[]),
        &Vec::new(),
        &Vec::new(),
    )
    .unwrap();
    assert_eq!(steps.len(), 4);
    assert_eq!(steps[0], SwapStep::ReadBalances);
    assert_eq!(steps[3], SwapStep::ReadBalances);
}

#[test]
fn discovered_assets_are_put_on_the_index_once() {
    let mut ctx = swap(vec![line(&usdc(), 61, 500)]);
    let found = vec![
        line(&usdt(), 60, 1_000_000),
        line(&usdc(), 77, 9),
        TestudoData {
            token_mint: Pubkey::new_from_array(WRAPPED_NATIVE),
            testudo_pubkey: key(90),
            testudo_token_count: 0,
        },
        line(&usdt(), 78, 3),
        line(&bonk(), 62, 0),
    ];
    let call = request(99, &[], &[]);
    assert!(process_swap(&mut ctx, &call, &Vec::new(), &call, &found, &supplied()).is_ok());
    let expected = vec![line(&usdc(), 61, 500), line(&usdt(), 60, 0), line(&bonk(), 62, 0)];
    assert_eq!(ctx.centurion.data.testudos, expected);
    // A second time changes nothing.
    assert!(process_swap(&mut ctx, &call, &Vec::new(), &call, &found, &supplied()).is_ok());
    assert_eq!(ctx.centurion.data.testudos, expected);
}

#[test]
fn the_marker_is_told_by_the_asset_not_by_the_address() {
    let mut ctx = swap(Vec::new());
    let found = vec![
        TestudoData {
            token_mint: Pubkey::new_from_array(WRAPPED_NATIVE),
            testudo_pubkey: Pubkey::new_from_array(WRAPPED_NATIVE),
            testudo_token_count: 0,
        },
        TestudoData {
            token_mint: key(90),
            testudo_pubkey: Pubkey::new_from_array(WRAPPED_NATIVE),
            testudo_token_count: 4,
        },
    ];
    let call = request(99, &[], &[]);
    assert!(process_swap(&mut ctx, &call, &Vec::new(), &call, &found, &supplied()).is_ok());
    assert_eq!(
        ctx.centurion.data.testudos,
        vec![TestudoData {
            token_mint: key(90),
            testudo_pubkey: Pubkey::new_from_array(WRAPPED_NATIVE),
            testudo_token_count: 0,
        }]
    );
}

#[test]
fn discovered_assets_do_not_take_the_index_over_its_limit() {
    let mut ctx = swap(vec![line(&usdc(), 61, 500), line(&usdt(), 60, 0)]);
    let found = vec![line(&bonk(), 62, 0), TestudoData { token_mint: key(91), testudo_pubkey: key(63), testudo_token_count: 0 }];
    let call = request(99, &[], &[]);
    let before = ctx.clone();
    assert_eq!(
        process_swap(&mut ctx, &call, &Vec::new(), &call, &found, &supplied()),
        Err(ErrorCode::MaxTestudosReached)
    );
    assert_eq!(ctx, before);
    ctx.legate.data.max_testudos_per_user = 4;
    assert!(process_swap(&mut ctx, &call, &Vec::new(), &call, &found, &supplied()).is_ok());
    assert_eq!(ctx.centurion.data.testudos.len(), 4);
}

#[test]
fn a_swap_is_refused_for_the_first_thing_amiss() {
    let call = request(99, &[0], &[]);
    let bad = request(42, &[4], &[]);
    let found = vec![line(&bonk(), 62, 0)];
    let try_swap = |ctx: &mut Swap, swap_call: &JupiterInstructionWithIdxs, setup: &Vec<JupiterInstructionWithIdxs>, cleanup: &JupiterInstructionWithIdxs| {
        let before = ctx.clone();
        let result = process_swap(ctx, swap_call, setup, cleanup, &found, &supplied());
        if result.is_err() {
            assert_eq!(*ctx, before);
        }
        result.map(|_| ())
    };

    let mut ctx = swap(Vec::new());
    ctx.valid_signer_of_password = signer(OWNER);
    ctx.treasury = key(OWNER);
    assert_eq!(try_swap(&mut ctx, &call, &Vec::new(), &call), Err(ErrorCode::InvalidPasswordSignature));
    let mut ctx = swap(Vec::new());
    ctx.authority = signer(UNLOCK);
    assert_eq!(try_swap(&mut ctx, &call, &Vec::new(), &call), Err(ErrorCode::InvalidAuthority));
    let mut ctx = swap(Vec::new());
    ctx.treasury = key(OWNER);
    ctx.destination_mint = Mint { key: key(92), decimals: 6 };
    assert_eq!(try_swap(&mut ctx, &call, &Vec::new(), &call), Err(ErrorCode::InvalidTreasuryAccount));
    let mut ctx = swap(Vec::new());
    ctx.destination_mint = Mint { key: key(92), decimals: 6 };
    ctx.destination_testudo.mint = key(92);
    assert_eq!(try_swap(&mut ctx, &call, &Vec::new(), &call), Err(ErrorCode::InvalidTokenMint));
    let mut ctx = swap(Vec::new());
    ctx.source_testudo.owning_centurion = key(51);
    assert_eq!(try_swap(&mut ctx, &call, &Vec::new(), &call), Err(ErrorCode::InvalidATA));
    let mut ctx = swap(Vec::new());
    ctx.destination_testudo.mint = usdc().key;
    assert_eq!(try_swap(&mut ctx, &call, &Vec::new(), &call), Err(ErrorCode::InvalidTokenMint));

    let mut ctx = swap(Vec::new());
    assert_eq!(try_swap(&mut ctx, &bad, &Vec::new(), &call), Err(ErrorCode::InvalidRemainingAccounts));
    assert_eq!(try_swap(&mut ctx, &call, &Vec::new(), &bad), Err(ErrorCode::InvalidRemainingAccounts));
    assert_eq!(
        try_swap(&mut ctx, &call, &vec![call.clone(), bad.clone()], &call),
        Err(ErrorCode::InvalidRemainingAccounts)
    );
    assert_eq!(try_swap(&mut ctx, &call, &vec![call.clone()], &call), Ok(()));
}

fn settled(before: (u64, u64), after: (u64, u64), index: Vec<TestudoData>) -> (Realized, Centurion) {
    let mut vault = swap(index).centurion.data;
    let realized = settle_swap(
        &mut vault,
        &usdc().key,
        &usdt().key,
        SwapBalances { source: before.0, destination: before.1 },
        SwapBalances { source: after.0, destination: after.1 },
        9_000,
    );
    (realized, vault)
}

#[test]
fn what_a_swap_did_is_read_off_the_balances() {
    let (realized, vault) = settled((500, 0), (300, 980), vec![line(&usdt(), 60, 7), line(&usdc(), 61, 500)]);
    assert_eq!(realized, Realized { sold: 200, received: 980 });
    assert_eq!(vault.testudos, vec![line(&usdt(), 60, 987), line(&usdc(), 61, 300)]);
    assert_eq!(vault.last_accessed, 9_000);
    assert_eq!(vault.authority, key(OWNER));
    assert_eq!(vault.lamport_balance, 0);
}

#[test]
fn the_record_of_a_swap_stops_at_its_bounds() {
    let (realized, vault) = settled(
        (500, 10),
        (0, 20),
        vec![line(&usdt(), 60, u64::MAX - 3), line(&usdc(), 61, 100)],
    );
    assert_eq!(realized, Realized { sold: 500, received: 10 });
    assert_eq!(vault.testudos, vec![line(&usdt(), 60, u64::MAX), line(&usdc(), 61, 0)]);
}

#[test]
fn a_swap_that_moved_the_other_way_records_nothing() {
    let (realized, vault) = settled((300, 980), (500, 0), vec![line(&usdt(), 60, 7), line(&usdc(), 61, 500)]);
    assert_eq!(realized, Realized { sold: 0, received: 0 });
    assert_eq!(vault.testudos, vec![line(&usdt(), 60, 7), line(&usdc(), 61, 500)]);
    let (realized, _) = settled((5, 5), (5, 5), Vec::new());
    assert_eq!(realized, Realized { sold: 0, received: 0 });
}

#[test]
fn a_swap_of_assets_off_the_index_records_only_what_is_on_it() {
    let (realized, vault) = settled((500, 0), (300, 980), vec![line(&usdc(), 61, 500)]);
    assert_eq!(realized, Realized { sold: 200, received: 980 });
    assert_eq!(vault.testudos, vec![line(&usdc(), 61, 300)]);
    let (realized, vault) = settled((500, 0), (300, 980), vec![line(&bonk(), 62, 4)]);
    assert_eq!(realized, Realized { sold: 200, received: 980 });
    assert_eq!(vault.testudos, vec![line(&bonk(), 62, 4)]);
}
