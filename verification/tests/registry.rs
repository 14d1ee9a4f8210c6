use std::str::FromStr;

use testudo::accounts::{Account, Signer};
use testudo::custom_accounts::legate::{Legate, TestudoTokenWhitelist};
use testudo::errors::ErrorCode;
use testudo::instructions::account_management::{
    process_close_legate, process_init_legate, CloseLegate, InitLegate,
};
use testudo::instructions::initial_whitelist::initial_whitelist;
use testudo::instructions::legate_admin::{
    apply_action, process_add_mint_to_testudo_token_whitelist, process_legate_admin,
    process_update_authority, process_update_fee_percent, process_update_max_testudos,
    process_update_max_whitelisted_mints, process_update_treasury, reserve_shortfall,
    AddMintToTestudoTokenWhitelist, LegateAdmin, LegateAdminAction, UpdateAuthority,
    UpdateFeePercent, UpdateMaxTestudos, UpdateMaxWhitelistedMints, UpdateTreasury,
};
use testudo::calls::Movement;
use testudo::pubkey::Pubkey;

fn key(fill: u8) -> Pubkey {
    Pubkey::new_from_array([fill; 32])
}

fn signer(fill: u8) -> Signer {
    Signer { key: key(fill), lamports: 1_000_000 }
}

fn blank() -> Legate {
    Legate {
        authority: key(0),
        bump: 0,
        is_initialized: false,
        last_updated: 0,
        max_centurions_per_user: 0,
        max_testudos_per_user: 0,
        max_whitelisted_mints: 0,
        testudo_token_whitelist: Vec::new(),
        treasury_acc: key(0),
        percent_for_fees: 0,
    }
}

fn registry() -> Account<Legate> {
    let mut ctx = InitLegate {
        authority: signer(1),
        legate: Account { key: key(100), lamports: 5_000, data: blank() },
    };
    process_init_legate(&mut ctx, key(2), 254, 1_700_000_000).unwrap();
    ctx.legate
}

fn listing(fill: u8, name: &str, symbol: &str) -> TestudoTokenWhitelist {
    TestudoTokenWhitelist {
        token_mint: key(fill),
        token_name: name.to_string(),
        token_symbol: symbol.to_string(),
        token_decimals: 6,
    }
}

fn decoded(text: &str) -> Pubkey {
    Pubkey::new_from_array(anchor_lang::prelude::Pubkey::from_str(text).unwrap().to_bytes())
}

#[test]
fn a_new_registry_starts_with_its_first_values() {
    let legate = registry();
    assert_eq!(legate.key, key(100));
    assert_eq!(legate.lamports, 5_000);
    let data = legate.data;
    assert_eq!(data.authority, key(1));
    assert_eq!(data.bump, 254);
    assert!(data.is_initialized);
    assert_eq!(data.last_updated, 1_700_000_000);
    assert_eq!(data.max_centurions_per_user, 1);
    assert_eq!(data.max_testudos_per_user, 30);
    assert_eq!(data.max_whitelisted_mints, 50);
    assert_eq!(data.treasury_acc, key(2));
    assert_eq!(data.percent_for_fees, 15);
    assert_eq!(data.testudo_token_whitelist.len(), 19);
}

#[test]
fn a_registry_is_created_once() {
    let mut ctx = InitLegate { authority: signer(9), legate: registry() };
    let before = ctx.clone();
    assert_eq!(
        process_init_legate(&mut ctx, key(3), 1, 5),
        Err(ErrorCode::AccountAlreadyInitialized)
    );
    assert_eq!(ctx, before);
}

#[test]
fn the_first_whitelist_names_the_assets_by_their_identities() {
    let list = initial_whitelist();
    let expected: [(&str, &str, &str, u8); 19] = [
        ("EPjFWdd5AufqSSqeM2qN1xzybapC8G4wEGGkZwyTDt1v", "USD Coin", "USDC", 6),
        ("Es9vMFrzaCERmJfrF4H2FYD4KCoNkY11McCe8BenwNYB", "Tether USD", "USDT", 6),
        ("CWE8jPTUYhdCTZYWPTe1o5DFqfdjzWKc9WKz6rSjQUdG", "Chainlink", "LINK", 6),
        ("DEhAasscXF4kEGxFgJ3bq4PpVGp5wyUxMRvn6TzGVHaw", "Uniswap", "UNI", 6),
        ("3vHdRMX9YmAoCdMVCEwVtgCbaLw3cAaU6ksM48EdYqFa", "Aave", "AAVE", 6),
        ("HaP8r3ksG76PhQLTqR8FYBeNiQpejcFbQmiHbg787Ut1", "Official Trump", "TRUMP", 6),
        ("rndrizKT3MK1iimdxRdWabcF7Zg7AR5T4nud4EkHBof", "Render", "RENDER", 8),
        ("JUPyiwrYJFskUPiHa7hkeR8VUtAeFoSYbKedZNsDvCN", "Jupiter", "JUP", 6),
        ("DezXAZ8z7PnrnRJjz3wXBoRgixCa6xjnB7YaB1pPB263", "Bonk", "BONK", 5),
        ("BLze6PfqC69d1FqiozXnzNzWkMLddsJ2LXhg1McPiFFn", "Virtuals Protocol", "VIRTUAL", 9),
        ("9BB6NFEcjBCtnNLFko2FqVQBq8HHM13kCyYcdQbgpump", "Fartcoin", "FARTCOIN", 6),
        ("EKpQGSJtjMFqKZ9KQanSqYXRcF8fBopzLHYxdM65zcjm", "dogwifhat", "WIF", 6),
        ("5tN42n9vMi6ubp67Uy4NnmM5DMZYN8aS8GeB3bEDHr6E", "The Graph", "GRT", 6),
        ("HZRCwxP2Vq9PCpPXooayhJ2bxTpo5xfpQrwB1svh332p", "Lido DAO", "LDO", 8),
        ("4k3Dyjzvzp8eMZWUXbBCjEvwSkkk59S5iCNLY3QrkX6R", "Raydium", "RAY", 6),
        ("HZ1JovNiVvGrGNiiYvEozEVgZ58xaU3RKwX8eACQBCt3", "Pyth Network", "PYTH", 6),
        ("2zMMhcVQEXDtdE6vsFS7S7D5oUodfJHE8vd1gnBouauv", "Pudgy Penguins", "PENGU", 6),
        ("hntyVP6YFm1Hg25TN9WGLqM12b8TQmcknKrdu1oxWux", "Helium", "HNT", 8),
        ("jtojtomepa8beP8AuQc6eXt5FriJwfFMwQx2v2f9mCL", "Jito", "JTO", 9),
    ];
    assert_eq!(list.len(), expected.len());
    for (line, (mint, name, symbol, decimals)) in list.iter().zip(expected.iter()) {
        assert_eq!(line.token_mint, decoded(mint));
        assert_eq!(line.token_name, *name);
        assert_eq!(line.token_symbol, *symbol);
        assert_eq!(line.token_decimals, *decimals);
    }
    for (i, a) in list.iter().enumerate() {
        for b in list.iter().skip(i + 1) {
            assert_ne!(a.token_mint, b.token_mint);
        }
    }
    assert_eq!(registry().data.testudo_token_whitelist, list);
}

#[test]
fn closing_the_registry_refunds_its_authority() {
    let mut ctx = CloseLegate { authority: signer(1), legate: registry() };
    let plan = process_close_legate(&mut ctx).unwrap();
    assert_eq!(plan, vec![Movement::Lamports { from: key(100), to: key(1), amount: 5_000 }]);
    assert!(!ctx.legate.data.is_initialized);
    assert_eq!(ctx.legate.data.testudo_token_whitelist.len(), 19);
    assert_eq!(ctx.legate.data.treasury_acc, key(2));
}

#[test]
fn closing_the_registry_is_for_its_authority_only() {
    let mut ctx = CloseLegate { authority: signer(7), legate: registry() };
    let before = ctx.clone();
    assert_eq!(process_close_legate(&mut ctx), Err(ErrorCode::InvalidAuthority));
    assert_eq!(ctx, before);

    let mut ctx = CloseLegate {
        authority: signer(1),
        legate: Account { key: key(100), lamports: 1, data: blank() },
    };
    assert_eq!(process_close_legate(&mut ctx), Err(ErrorCode::LegateNotInitialized));
}

#[test]
fn a_closed_registry_can_be_created_again() {
    let mut ctx = CloseLegate { authority: signer(1), legate: registry() };
    process_close_legate(&mut ctx).unwrap();
    let mut again = InitLegate { authority: signer(4), legate: ctx.legate };
    assert_eq!(process_init_legate(&mut again, key(5), 250, 9), Ok(()));
    assert_eq!(again.legate.data.authority, key(4));
    assert_eq!(again.legate.data.treasury_acc, key(5));
    assert_eq!(again.legate.data.last_updated, 9);
}

#[test]
fn changes_need_the_authority_of_an_initialized_registry() {
    let mut ctx = LegateAdmin { authority: signer(8), legate: registry() };
    let before = ctx.clone();
    assert_eq!(
        process_legate_admin(&mut ctx, LegateAdminAction::UpdateFeePercent { new_percent: 1 }, 5),
        Err(ErrorCode::InvalidAuthority)
    );
    assert_eq!(ctx, before);

    let mut ctx = LegateAdmin {
        authority: signer(0),
        legate: Account { key: key(100), lamports: 0, data: blank() },
    };
    assert_eq!(
        process_legate_admin(&mut ctx, LegateAdminAction::UpdateFeePercent { new_percent: 1 }, 5),
        Err(ErrorCode::LegateNotInitialized)
    );
}

#[test]
fn the_fee_and_the_treasury_are_set_and_stamped() {
    let mut ctx = LegateAdmin { authority: signer(1), legate: registry() };
    assert_eq!(
        process_legate_admin(&mut ctx, LegateAdminAction::UpdateFeePercent { new_percent: 250 }, 11),
        Ok(None)
    );
    assert_eq!(ctx.legate.data.percent_for_fees, 250);
    assert_eq!(ctx.legate.data.last_updated, 11);
    assert_eq!(
        process_legate_admin(&mut ctx, LegateAdminAction::UpdateTreasury { new_treasury: key(6) }, 12),
        Ok(None)
    );
    assert_eq!(ctx.legate.data.treasury_acc, key(6));
    assert_eq!(ctx.legate.data.last_updated, 12);
    assert_eq!(ctx.legate.data.authority, key(1));
    assert_eq!(ctx.legate.data.testudo_token_whitelist.len(), 19);
}

#[test]
fn the_registry_is_handed_over_on_the_word_of_its_authority() {
    let action = LegateAdminAction::UpdateAuthority { new_authority: key(3) };
    let mut ctx = LegateAdmin { authority: signer(1), legate: registry() };
    let before = ctx.legate.data.clone();
    assert_eq!(process_legate_admin(&mut ctx, action, 7), Ok(None));
    assert_eq!(ctx.legate.data.authority, key(3));
    assert_eq!(ctx.legate.data.last_updated, 7);
    assert_eq!(ctx.legate.data.treasury_acc, before.treasury_acc);
    assert_eq!(ctx.legate.data.percent_for_fees, before.percent_for_fees);
    assert_eq!(ctx.legate.data.testudo_token_whitelist, before.testudo_token_whitelist);
    // The former authority has no say any more.
    assert_eq!(
        process_legate_admin(&mut ctx, LegateAdminAction::UpdateFeePercent { new_percent: 1 }, 8),
        Err(ErrorCode::InvalidAuthority)
    );
    // The new one has.
    ctx.authority = signer(3);
    assert_eq!(
        process_legate_admin(&mut ctx, LegateAdminAction::UpdateFeePercent { new_percent: 1 }, 8),
        Ok(None)
    );
}

#[test]
fn the_fee_is_at_most_the_whole() {
    let mut ctx = LegateAdmin { authority: signer(1), legate: registry() };
    let before = ctx.clone();
    for new_percent in [10_001u16, 12_345, 65_535] {
        assert_eq!(
            process_legate_admin(&mut ctx, LegateAdminAction::UpdateFeePercent { new_percent }, 9),
            Err(ErrorCode::InvalidFeePercent)
        );
        assert_eq!(ctx, before);
    }
    assert_eq!(
        process_legate_admin(&mut ctx, LegateAdminAction::UpdateFeePercent { new_percent: 10_000 }, 9),
        Ok(None)
    );
    assert_eq!(ctx.legate.data.percent_for_fees, 10_000);
    assert_eq!(
        process_legate_admin(&mut ctx, LegateAdminAction::UpdateFeePercent { new_percent: 0 }, 10),
        Ok(None)
    );
    assert_eq!(ctx.legate.data.percent_for_fees, 0);

    let mut ctx = UpdateFeePercent { authority: signer(1), legate: registry() };
    let before = ctx.clone();
    assert_eq!(process_update_fee_percent(&mut ctx, 10_001, 11), Err(ErrorCode::InvalidFeePercent));
    assert_eq!(process_update_fee_percent(&mut ctx, 65_535, 11), Err(ErrorCode::InvalidFeePercent));
    assert_eq!(ctx, before);
    assert_eq!(process_update_fee_percent(&mut ctx, 10_000, 11), Ok(()));
    assert_eq!(ctx.legate.data.percent_for_fees, 10_000);
    // Who may not change the registry learns that first.
    let mut ctx = UpdateFeePercent { authority: signer(2), legate: registry() };
    assert_eq!(process_update_fee_percent(&mut ctx, 10_001, 11), Err(ErrorCode::InvalidAuthority));
}

#[test]
fn each_limit_only_grows() {
    let mut ctx = LegateAdmin { authority: signer(1), legate: registry() };
    let before = ctx.clone();

    for new_max in [0u8, 1] {
        assert_eq!(
            process_legate_admin(&mut ctx, LegateAdminAction::UpdateMaxCenturions { new_max }, 3),
            Err(ErrorCode::CannotDecreaseMaxCenturions)
        );
    }
    for new_max in [0u16, 29, 30] {
        assert_eq!(
            process_legate_admin(&mut ctx, LegateAdminAction::UpdateMaxTestudos { new_max }, 3),
            Err(ErrorCode::CannotUpdateMaxTestudosToLessThanCurrentNumberOfTestudos)
        );
    }
    for new_max in [0u16, 49, 50] {
        assert_eq!(
            process_legate_admin(&mut ctx, LegateAdminAction::UpdateMaxWhitelistedMints { new_max }, 3),
            Err(ErrorCode::CannotUpdateMaxWhitelistedMintsToLessThanCurrentNumberOfWhitelistedMints)
        );
    }
    assert_eq!(ctx, before);

    assert_eq!(
        process_legate_admin(&mut ctx, LegateAdminAction::UpdateMaxCenturions { new_max: 2 }, 4),
        Ok(None)
    );
    assert_eq!(
        process_legate_admin(&mut ctx, LegateAdminAction::UpdateMaxTestudos { new_max: 31 }, 5),
        Ok(None)
    );
    assert_eq!(
        process_legate_admin(&mut ctx, LegateAdminAction::UpdateMaxWhitelistedMints { new_max: 60 }, 6),
        Ok(Some(8 + 4135 + 60 * 81))
    );
    assert_eq!(ctx.legate.data.max_centurions_per_user, 2);
    assert_eq!(ctx.legate.data.max_testudos_per_user, 31);
    assert_eq!(ctx.legate.data.max_whitelisted_mints, 60);
    assert_eq!(ctx.legate.data.last_updated, 6);
    // One limit moved at a time: the others stood still.
    assert_eq!(
        process_legate_admin(&mut ctx, LegateAdminAction::UpdateMaxTestudos { new_max: 31 }, 7),
        Err(ErrorCode::CannotUpdateMaxTestudosToLessThanCurrentNumberOfTestudos)
    );
    assert_eq!(ctx.legate.data.last_updated, 6);
}

#[test]
fn the_whitelist_takes_a_new_asset_at_its_end() {
    let mut ctx = LegateAdmin { authority: signer(1), legate: registry() };
    let line = listing(77, "Seventy Seven", "SVN");
    assert_eq!(
        process_legate_admin(&mut ctx, LegateAdminAction::AddMintToWhitelist { mint_data: line.clone() }, 21),
        Ok(None)
    );
    assert_eq!(ctx.legate.data.testudo_token_whitelist.len(), 20);
    assert_eq!(ctx.legate.data.testudo_token_whitelist[19], line);
    assert_eq!(ctx.legate.data.testudo_token_whitelist[..19], initial_whitelist()[..]);
    assert_eq!(ctx.legate.data.last_updated, 21);
}

#[test]
fn the_whitelist_takes_no_asset_twice() {
    let mut ctx = LegateAdmin { authority: signer(1), legate: registry() };
    let line = listing(77, "Seventy Seven", "SVN");
    process_legate_admin(&mut ctx, LegateAdminAction::AddMintToWhitelist { mint_data: line }, 21).unwrap();
    let before = ctx.clone();
    let again = listing(77, "Another Name", "OTH");
    assert_eq!(
        process_legate_admin(&mut ctx, LegateAdminAction::AddMintToWhitelist { mint_data: again }, 22),
        Err(ErrorCode::MintAlreadyInList)
    );
    let usdc = TestudoTokenWhitelist {
        token_mint: decoded("EPjFWdd5AufqSSqeM2qN1xzybapC8G4wEGGkZwyTDt1v"),
        token_name: "USD Coin".to_string(),
        token_symbol: "USDC".to_string(),
        token_decimals: 6,
    };
    assert_eq!(
        process_legate_admin(&mut ctx, LegateAdminAction::AddMintToWhitelist { mint_data: usdc }, 22),
        Err(ErrorCode::MintAlreadyInList)
    );
    assert_eq!(ctx, before);
}

#[test]
fn the_whitelist_never_exceeds_its_limit() {
    let mut ctx = AddMintToTestudoTokenWhitelist { authority: signer(1), legate: registry() };
    for i in 0..31u8 {
        assert_eq!(
            process_add_mint_to_testudo_token_whitelist(&mut ctx, listing(100 + i, "N", "S"), i as u64),
            Ok(())
        );
    }
    assert_eq!(ctx.legate.data.testudo_token_whitelist.len(), 50);
    let before = ctx.clone();
    assert_eq!(
        process_add_mint_to_testudo_token_whitelist(&mut ctx, listing(200, "N", "S"), 99),
        Err(ErrorCode::MaxWhitelistedMintsReached)
    );
    assert_eq!(ctx, before);
    // A listed asset is refused as listed, full or not.
    assert_eq!(
        process_add_mint_to_testudo_token_whitelist(&mut ctx, listing(100, "N", "S"), 99),
        Err(ErrorCode::MintAlreadyInList)
    );
    // Room is made by raising the limit.
    let mut raise = UpdateMaxWhitelistedMints { authority: signer(1), legate: ctx.legate };
    assert_eq!(process_update_max_whitelisted_mints(&mut raise, 51, 100), Ok(8 + 4135 + 51 * 81));
    let mut ctx = AddMintToTestudoTokenWhitelist { authority: signer(1), legate: raise.legate };
    assert_eq!(process_add_mint_to_testudo_token_whitelist(&mut ctx, listing(200, "N", "S"), 101), Ok(()));
    assert_eq!(ctx.legate.data.testudo_token_whitelist.len(), 51);
}

#[test]
fn adding_to_the_whitelist_is_for_the_authority_only() {
    let mut ctx = AddMintToTestudoTokenWhitelist { authority: signer(5), legate: registry() };
    let before = ctx.clone();
    assert_eq!(
        process_add_mint_to_testudo_token_whitelist(&mut ctx, listing(77, "N", "S"), 1),
        Err(ErrorCode::InvalidAuthority)
    );
    assert_eq!(ctx, before);
}

#[test]
fn the_single_changes_do_what_the_general_one_does() {
    let mut ctx = UpdateAuthority { authority: signer(1), new_authority: key(3), legate: registry() };
    assert_eq!(process_update_authority(&mut ctx, 31), Ok(()));
    assert_eq!(ctx.legate.data.authority, key(3));
    assert_eq!(ctx.legate.data.last_updated, 31);
    let mut ctx = UpdateAuthority { authority: signer(1), new_authority: key(4), legate: ctx.legate };
    assert_eq!(process_update_authority(&mut ctx, 32), Err(ErrorCode::InvalidAuthority));
    let mut ctx = UpdateAuthority { authority: signer(3), new_authority: key(4), legate: ctx.legate };
    assert_eq!(process_update_authority(&mut ctx, 32), Ok(()));
    assert_eq!(ctx.legate.data.authority, key(4));

    let mut ctx = UpdateFeePercent { authority: signer(1), legate: registry() };
    assert_eq!(process_update_fee_percent(&mut ctx, 30, 33), Ok(()));
    assert_eq!(ctx.legate.data.percent_for_fees, 30);
    assert_eq!(ctx.legate.data.last_updated, 33);
    let mut ctx = UpdateFeePercent { authority: signer(2), legate: registry() };
    assert_eq!(process_update_fee_percent(&mut ctx, 30, 33), Err(ErrorCode::InvalidAuthority));

    let mut ctx = UpdateTreasury { authority: signer(1), legate: registry() };
    assert_eq!(process_update_treasury(&mut ctx, key(9), 34), Ok(()));
    assert_eq!(ctx.legate.data.treasury_acc, key(9));
    assert_eq!(ctx.legate.data.last_updated, 34);
    let mut ctx = UpdateTreasury { authority: signer(2), legate: registry() };
    assert_eq!(process_update_treasury(&mut ctx, key(9), 34), Err(ErrorCode::InvalidAuthority));

    let mut ctx = UpdateMaxTestudos { authority: signer(1), legate: registry() };
    assert_eq!(
        process_update_max_testudos(&mut ctx, 30, 35),
        Err(ErrorCode::CannotUpdateMaxTestudosToLessThanCurrentNumberOfTestudos)
    );
    assert_eq!(process_update_max_testudos(&mut ctx, 40, 35), Ok(()));
    assert_eq!(ctx.legate.data.max_testudos_per_user, 40);
    assert_eq!(ctx.legate.data.last_updated, 35);
    let mut ctx = UpdateMaxTestudos { authority: signer(2), legate: registry() };
    assert_eq!(process_update_max_testudos(&mut ctx, 40, 35), Err(ErrorCode::InvalidAuthority));

    let mut ctx = UpdateMaxWhitelistedMints { authority: signer(1), legate: registry() };
    assert_eq!(
        process_update_max_whitelisted_mints(&mut ctx, 50, 36),
        Err(ErrorCode::CannotUpdateMaxWhitelistedMintsToLessThanCurrentNumberOfWhitelistedMints)
    );
    assert_eq!(process_update_max_whitelisted_mints(&mut ctx, 65_535, 36), Ok(8 + 4135 + 65_535 * 81));
    assert_eq!(ctx.legate.data.max_whitelisted_mints, 65_535);
    let mut ctx = UpdateMaxWhitelistedMints { authority: signer(2), legate: registry() };
    assert_eq!(process_update_max_whitelisted_mints(&mut ctx, 51, 36), Err(ErrorCode::InvalidAuthority));
}

#[test]
fn a_change_applies_to_a_registry_whoever_holds_it() {
    let mut data = registry().data;
    assert_eq!(
        apply_action(&mut data, LegateAdminAction::UpdateFeePercent { new_percent: 0 }, 50),
        Ok(None)
    );
    assert_eq!(data.percent_for_fees, 0);
    assert_eq!(data.last_updated, 50);
}

#[test]
fn the_caller_tops_up_what_the_reserve_lacks() {
    assert_eq!(reserve_shortfall(1_000, 400), 600);
    assert_eq!(reserve_shortfall(1_000, 1_000), 0);
    assert_eq!(reserve_shortfall(1_000, 4_000), 0);
    assert_eq!(reserve_shortfall(0, 0), 0);
    assert_eq!(reserve_shortfall(u64::MAX, 0), u64::MAX);
}
