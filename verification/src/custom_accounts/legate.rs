use vstd::prelude::*;
use crate::pubkey::Pubkey;

verus! {

/// One asset that vaults may hold, as the registry lists it.
#[derive(Clone, Debug, PartialEq, Eq)]
pub struct TestudoTokenWhitelist {
    pub token_mint: Pubkey,
    pub token_name: String,
    pub token_symbol: String,
    pub token_decimals: u8,
}

/// What a line of the whitelist says.
pub struct TokenListing {
    pub mint: Pubkey,
    pub name: Seq<char>,
    pub symbol: Seq<char>,
    pub decimals: u8,
}

impl View for TestudoTokenWhitelist {
    type V = TokenListing;

    open spec fn view(&self) -> TokenListing {
        TokenListing {
            mint: self.token_mint,
            name: self.token_name@,
            symbol: self.token_symbol@,
            decimals: self.token_decimals,
        }
    }
}

/// The registry: the one administrative account of the ledger.
#[derive(Clone, Debug, PartialEq, Eq)]
pub struct Legate {
    /// Who may change the registry.
    pub authority: Pubkey,
    /// The disambiguation byte of the registry's address.
    pub bump: u8,
    /// Set once, when the registry is created.
    pub is_initialized: bool,
    /// When the registry was last changed.
    pub last_updated: u64,
    pub max_centurions_per_user: u8,
    /// How many sub-vaults a vault may have. It only ever grows.
    pub max_testudos_per_user: u16,
    /// How many assets the whitelist may hold. It only ever grows.
    pub max_whitelisted_mints: u16,
    /// The assets that vaults may hold, in the order in which they were
    /// listed, none of them twice.
    pub testudo_token_whitelist: Vec<TestudoTokenWhitelist>,
    /// Who receives the fees.
    pub treasury_acc: Pubkey,
    /// The fee on every amount that moves, in basis points.
    pub percent_for_fees: u16,
}

/// No asset stands twice in the list.
pub open spec fn whitelist_unique(list: Seq<TestudoTokenWhitelist>) -> bool {
    forall|i: int, j: int| 0 <= i < j < list.len() ==> list[i].token_mint != list[j].token_mint
}

/// The list holds a line for `mint`.
pub open spec fn whitelist_has(list: Seq<TestudoTokenWhitelist>, mint: Pubkey) -> bool {
    exists|i: int| 0 <= i < list.len() && list[i].token_mint == mint
}

impl Legate {
    /// The invariant of the registry: no asset is listed twice, and the
    /// whitelist holds no more assets than its limit allows.
    pub open spec fn wf(&self) -> bool {
        &&& whitelist_unique(self.testudo_token_whitelist@)
        &&& self.testudo_token_whitelist@.len() <= self.max_whitelisted_mints
    }

    /// The registry lists `mint`.
    pub open spec fn lists(&self, mint: Pubkey) -> bool {
        whitelist_has(self.testudo_token_whitelist@, mint)
    }

    /// What the whitelist says, line by line.
    pub open spec fn listings(&self) -> Seq<TokenListing> {
        self.testudo_token_whitelist@.map_values(|e: TestudoTokenWhitelist| e@)
    }

    /// The same registry but for its whitelist and the time of the last
    /// change.
    pub open spec fn same_settings(&self, other: &Legate) -> bool {
        &&& self.authority == other.authority
        &&& self.bump == other.bump
        &&& self.is_initialized == other.is_initialized
        &&& self.max_centurions_per_user == other.max_centurions_per_user
        &&& self.max_testudos_per_user == other.max_testudos_per_user
        &&& self.max_whitelisted_mints == other.max_whitelisted_mints
        &&& self.treasury_acc == other.treasury_acc
        &&& self.percent_for_fees == other.percent_for_fees
    }

    /// Whether the registry lists `mint`.
    pub fn is_whitelisted(&self, mint: &Pubkey) -> (r: bool)
        ensures
            r == self.lists(*mint),
    {
        let n = self.testudo_token_whitelist.len();
        let mut i: usize = 0;
        while i < n
            invariant
                n == self.testudo_token_whitelist@.len(),
                i <= n,
                forall|j: int| 0 <= j < i ==> self.testudo_token_whitelist@[j].token_mint != *mint,
            decreases n - i,
        {
            if self.testudo_token_whitelist[i].token_mint == *mint {
                return true;
            }
            i += 1;
        }
        false
    }
}

} // verus!
