use testudo::calls::{route_lamports, route_tokens, Movement};
use testudo::errors::ErrorCode;
use testudo::fees::{split_fee, FeeSplit, BASIS_POINTS};
use testudo::pubkey::Pubkey;

fn key(fill: u8) -> Pubkey {
    Pubkey::new_from_array([fill; 32])
}

#[test]
fn fee_of_fifteen_basis_points_on_one_hundred_thousand() {
    assert_eq!(split_fee(100_000, 15), Ok(FeeSplit { fee: 150, net: 99_850 }));
}

#[test]
fn fee_is_rounded_down() {
    assert_eq!(split_fee(666, 15), Ok(FeeSplit { fee: 0, net: 666 }));
    assert_eq!(split_fee(667, 15), Ok(FeeSplit { fee: 1, net: 666 }));
    assert_eq!(split_fee(9_999, 1), Ok(FeeSplit { fee: 0, net: 9_999 }));
    assert_eq!(split_fee(10_000, 1), Ok(FeeSplit { fee: 1, net: 9_999 }));
    assert_eq!(split_fee(19_999, 1), Ok(FeeSplit { fee: 1, net: 19_998 }));
}

#[test]
fn fee_and_rest_add_up_to_the_amount() {
    let amounts: [u64; 6] = [0, 1, 7, 10_000, 123_456_789, 1_000_000_000_000];
    let rates: [u16; 5] = [0, 1, 15, 250, 10_000];
    for amount in amounts {
        for rate in rates {
            let split = split_fee(amount, rate).unwrap();
            assert_eq!(split.fee + split.net, amount);
            assert_eq!(split.fee, amount * rate as u64 / BASIS_POINTS);
        }
    }
}

#[test]
fn fee_at_no_rate_and_at_the_whole_rate() {
    assert_eq!(split_fee(500, 0), Ok(FeeSplit { fee: 0, net: 500 }));
    assert_eq!(split_fee(500, 10_000), Ok(FeeSplit { fee: 500, net: 0 }));
    assert_eq!(split_fee(0, 15), Ok(FeeSplit { fee: 0, net: 0 }));
}

#[test]
fn fee_fails_closed_when_the_product_does_not_fit() {
    assert_eq!(split_fee(u64::MAX, 15), Err(ErrorCode::ArithmeticOverflow));
    assert_eq!(split_fee(u64::MAX / 15 + 1, 15), Err(ErrorCode::ArithmeticOverflow));
    assert_eq!(
        split_fee(u64::MAX / 15, 15),
        Ok(FeeSplit { fee: 1_844_674_407_370_955, net: u64::MAX / 15 - 1_844_674_407_370_955 })
    );
    assert_eq!(split_fee(u64::MAX, 1), Ok(FeeSplit { fee: u64::MAX / 10_000, net: u64::MAX - u64::MAX / 10_000 }));
}

#[test]
fn fee_above_the_amount_is_refused() {
    assert_eq!(split_fee(100, 10_100), Err(ErrorCode::ArithmeticOverflow));
    assert_eq!(split_fee(100, 20_000), Err(ErrorCode::ArithmeticOverflow));
    assert_eq!(split_fee(10_000, 10_001), Err(ErrorCode::ArithmeticOverflow));
    // Rounded down, the fee still fits.
    assert_eq!(split_fee(100, 10_001), Ok(FeeSplit { fee: 100, net: 0 }));
    assert_eq!(split_fee(1, 10_001), Ok(FeeSplit { fee: 1, net: 0 }));
}

#[test]
fn native_route_pays_the_treasury_first() {
    let plan = route_lamports(key(1), key(2), key(3), FeeSplit { fee: 150, net: 99_850 });
    assert_eq!(
        plan,
        vec![
            Movement::Lamports { from: key(1), to: key(2), amount: 150 },
            Movement::Lamports { from: key(1), to: key(3), amount: 99_850 },
        ]
    );
}

#[test]
fn native_route_leaves_the_treasury_out_when_there_is_no_fee() {
    let plan = route_lamports(key(1), key(2), key(3), FeeSplit { fee: 0, net: 40 });
    assert_eq!(plan, vec![Movement::Lamports { from: key(1), to: key(3), amount: 40 }]);
}

#[test]
fn token_route_pays_the_treasury_first() {
    let plan = route_tokens(key(1), key(2), key(3), key(4), key(5), 6, FeeSplit { fee: 3, net: 1_997 });
    assert_eq!(
        plan,
        vec![
            Movement::Tokens { from: key(1), to: key(2), mint: key(4), authority: key(5), amount: 3, decimals: 6 },
            Movement::Tokens { from: key(1), to: key(3), mint: key(4), authority: key(5), amount: 1_997, decimals: 6 },
        ]
    );
}

#[test]
fn token_route_leaves_the_treasury_out_when_there_is_no_fee() {
    let plan = route_tokens(key(1), key(2), key(3), key(4), key(5), 9, FeeSplit { fee: 0, net: 12 });
    assert_eq!(
        plan,
        vec![Movement::Tokens { from: key(1), to: key(3), mint: key(4), authority: key(5), amount: 12, decimals: 9 }]
    );
}

#[test]
fn identities_compare_byte_by_byte() {
    let mut bytes = [5u8; 32];
    assert_eq!(Pubkey::new_from_array(bytes), key(5));
    bytes[31] = 6;
    assert_ne!(Pubkey::new_from_array(bytes), key(5));
    assert_eq!(Pubkey::new_from_array(bytes).to_bytes(), bytes);
    assert_eq!(Pubkey::new_from_array(bytes).to_vec(), bytes.to_vec());
}

#[test]
fn errors_say_what_went_wrong() {
    assert_eq!(ErrorCode::ArithmeticOverflow.message(), "Arithmetic overflow");
    assert_eq!(ErrorCode::InvalidPasswordSignature.message(), "Invalid signature for password");
    assert_eq!(ErrorCode::NoBackupAccountStored.message(), "No backup account stored");
    assert_eq!(
        ErrorCode::CenturionNotEmptyOfSplTokens.message(),
        "Centurion must be empty of spl tokens before closing (no testudos remaining)"
    );
    assert_eq!(ErrorCode::InvalidRemainingAccounts.message(), "Invalid remaining accounts given");
    assert_eq!(ErrorCode::AccountAlreadyInitialized.message(), "Account already initialized");
    assert_eq!(ErrorCode::InvalidFeePercent.message(), "Fee percent above 10000 basis points");
}
