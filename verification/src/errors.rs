use vstd::prelude::*;

verus! {

/// Why an operation was refused. An operation that is refused changes nothing.
#[derive(Clone, Copy, Debug, PartialEq, Eq, Structural)]
pub enum ErrorCode {
    /// The account was initialized before.
    AccountAlreadyInitialized,
    /// The registry is used before it was initialized.
    LegateNotInitialized,
    /// The signer is not the authority of the registry or of the vault.
    InvalidAuthority,
    /// A sub-vault is asked for where no vault exists. No operation reports
    /// it: a vault that is not initialized is reported as such. It keeps its
    /// place so that the errors after it keep their numbers.
    TestudoCreationCannotPreceedCenturionInitialization,
    /// The asset is not on the registry's whitelist, or the vault holds no
    /// sub-vault for it.
    UnsupportedTokenMint,
    /// The balance, or the balance above the reserved minimum, does not cover
    /// the amount.
    InsufficientFunds,
    /// The vault is used before it was initialized.
    CenturionNotInitialized,
    /// A holding account is bound to another asset than the one named.
    InvalidTokenMint,
    /// A holding account is not the one of the vault or of the party named.
    InvalidATA,
    /// Checked arithmetic failed in a fee or in a balance update.
    ArithmeticOverflow,
    /// The second signer is not the unlock key that the vault stores.
    InvalidPasswordSignature,
    /// The asset is on the whitelist already.
    MintAlreadyInList,
    /// The vault stores no backup identity.
    NoBackupAccountStored,
    /// The backup identity presented is not the one that the vault stores.
    InvalidBackupAccount,
    /// The vault holds as many sub-vaults as the registry allows.
    MaxTestudosReached,
    /// The new limit of sub-vaults per vault is not above the current one.
    CannotUpdateMaxTestudosToLessThanCurrentNumberOfTestudos,
    /// The whitelist holds as many assets as the registry allows.
    MaxWhitelistedMintsReached,
    /// The new limit of whitelisted assets is not above the current one.
    CannotUpdateMaxWhitelistedMintsToLessThanCurrentNumberOfWhitelistedMints,
    /// A sub-vault that is to be closed still holds a balance.
    ErrorTransferringAllTokensOutOfTestudo,
    /// The treasury account is not the one that the registry names.
    InvalidTreasuryAccount,
    /// The vault still has sub-vaults and cannot be closed.
    CenturionNotEmptyOfSplTokens,
    /// A delegated call refers to an account that was not supplied.
    InvalidRemainingAccounts,
    /// The new limit of vaults per owner is not above the current one.
    CannotDecreaseMaxCenturions,
    /// The fee rate named is above the whole, 10000 basis points.
    InvalidFeePercent,
}

impl ErrorCode {
    /// What the error says, in words.
    pub open spec fn text(&self) -> Seq<char> {
        match self {
            ErrorCode::AccountAlreadyInitialized => "Account already initialized"@,
            ErrorCode::LegateNotInitialized => "Legate account not initialized"@,
            ErrorCode::InvalidAuthority => "Invalid authority passed"@,
            ErrorCode::TestudoCreationCannotPreceedCenturionInitialization => {
                "User's Centurion must be initialized first"@
            },
            ErrorCode::UnsupportedTokenMint => {
                "Unsupported token mint. Legate must whitelist the token mint before Testudo creation"@
            },
            ErrorCode::InsufficientFunds => {
                "Depositer/Withdrawer has insufficient funds for deposit/withdraw"@
            },
            ErrorCode::CenturionNotInitialized => "Centurion not initialized"@,
            ErrorCode::InvalidTokenMint => "Invalid token mint"@,
            ErrorCode::InvalidATA => "Invalid associated token account"@,
            ErrorCode::ArithmeticOverflow => "Arithmetic overflow"@,
            ErrorCode::InvalidPasswordSignature => "Invalid signature for password"@,
            ErrorCode::MintAlreadyInList => "Mint already in list"@,
            ErrorCode::NoBackupAccountStored => "No backup account stored"@,
            ErrorCode::InvalidBackupAccount => "Invalid backup account passed"@,
            ErrorCode::MaxTestudosReached => "Max testudos reached"@,
            ErrorCode::CannotUpdateMaxTestudosToLessThanCurrentNumberOfTestudos => {
                "Cannot update max testudos to less than current number of testudos"@
            },
            ErrorCode::MaxWhitelistedMintsReached => "Max whitelisted mints reached"@,
            ErrorCode::CannotUpdateMaxWhitelistedMintsToLessThanCurrentNumberOfWhitelistedMints => {
                "Cannot update max whitelisted mints to less than current number of whitelisted mints"@
            },
            ErrorCode::ErrorTransferringAllTokensOutOfTestudo => {
                "Error while transferring all tokens out of Testudo"@
            },
            ErrorCode::InvalidTreasuryAccount => "Invalid treasury account"@,
            ErrorCode::CenturionNotEmptyOfSplTokens => {
                "Centurion must be empty of spl tokens before closing (no testudos remaining)"@
            },
            ErrorCode::InvalidRemainingAccounts => "Invalid remaining accounts given"@,
            ErrorCode::CannotDecreaseMaxCenturions => {
                "Cannot update max centurions to less than or equal to the current limit"@
            },
            ErrorCode::InvalidFeePercent => "Fee percent above 10000 basis points"@,
        }
    }

    /// What the error says, in words.
    pub fn message(&self) -> (r: &'static str)
        ensures
            r@ == self.text(),
    {
        match self {
            ErrorCode::AccountAlreadyInitialized => "Account already initialized",
            ErrorCode::LegateNotInitialized => "Legate account not initialized",
            ErrorCode::InvalidAuthority => "Invalid authority passed",
            ErrorCode::TestudoCreationCannotPreceedCenturionInitialization => {
                "User's Centurion must be initialized first"
            },
            ErrorCode::UnsupportedTokenMint => {
                "Unsupported token mint. Legate must whitelist the token mint before Testudo creation"
            },
            ErrorCode::InsufficientFunds => {
                "Depositer/Withdrawer has insufficient funds for deposit/withdraw"
            },
            ErrorCode::CenturionNotInitialized => "Centurion not initialized",
            ErrorCode::InvalidTokenMint => "Invalid token mint",
            ErrorCode::InvalidATA => "Invalid associated token account",
            ErrorCode::ArithmeticOverflow => "Arithmetic overflow",
            ErrorCode::InvalidPasswordSignature => "Invalid signature for password",
            ErrorCode::MintAlreadyInList => "Mint already in list",
            ErrorCode::NoBackupAccountStored => "No backup account stored",
            ErrorCode::InvalidBackupAccount => "Invalid backup account passed",
            ErrorCode::MaxTestudosReached => "Max testudos reached",
            ErrorCode::CannotUpdateMaxTestudosToLessThanCurrentNumberOfTestudos => {
                "Cannot update max testudos to less than current number of testudos"
            },
            ErrorCode::MaxWhitelistedMintsReached => "Max whitelisted mints reached",
            ErrorCode::CannotUpdateMaxWhitelistedMintsToLessThanCurrentNumberOfWhitelistedMints => {
                "Cannot update max whitelisted mints to less than current number of whitelisted mints"
            },
            ErrorCode::ErrorTransferringAllTokensOutOfTestudo => {
                "Error while transferring all tokens out of Testudo"
            },
            ErrorCode::InvalidTreasuryAccount => "Invalid treasury account",
            ErrorCode::CenturionNotEmptyOfSplTokens => {
                "Centurion must be empty of spl tokens before closing (no testudos remaining)"
            },
            ErrorCode::InvalidRemainingAccounts => "Invalid remaining accounts given",
            ErrorCode::CannotDecreaseMaxCenturions => {
                "Cannot update max centurions to less than or equal to the current limit"
            },
            ErrorCode::InvalidFeePercent => "Fee percent above 10000 basis points",
        }
    }
}

} // verus!
