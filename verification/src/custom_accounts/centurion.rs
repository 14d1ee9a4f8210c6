use vstd::prelude::*;
use crate::fees::{capped_sum, fall};
use crate::pubkey::Pubkey;

verus! {

/// One line of a vault's index of sub-vaults.
#[derive(Clone, Copy, Debug, PartialEq, Eq)]
pub struct TestudoData {
    /// The asset.
    pub token_mint: Pubkey,
    /// Where the sub-vault for it lives.
    pub testudo_pubkey: Pubkey,
    /// What the vault has recorded as held there. It is advisory: the balance
    /// that counts is the one that the typed-asset service reports.
    pub testudo_token_count: u64,
}

/// A vault: the umbrella account of one owner.
#[derive(Clone, Debug, PartialEq, Eq)]
pub struct Centurion {
    /// The owner. Set at creation and never changed.
    pub authority: Pubkey,
    /// Who may recover the balances where the owner cannot, if anyone.
    pub backup_owner: Option<Pubkey>,
    /// The unlock key: a second credential, apart from the owner's key.
    pub pubkey_to_password: Pubkey,
    /// The disambiguation byte of the vault's address.
    pub bump: u8,
    pub is_initialized: bool,
    pub created_at: u64,
    pub last_accessed: u64,
    /// The native currency that the vault tracks as deposited.
    pub lamport_balance: u64,
    /// The index of sub-vaults, with no asset twice.
    pub testudos: Vec<TestudoData>,
}

/// Line `i` is the first line of the index for `mint`.
pub open spec fn is_first_line(index: Seq<TestudoData>, mint: Pubkey, i: int) -> bool {
    &&& 0 <= i < index.len()
    &&& index[i].token_mint == mint
    &&& forall|j: int| 0 <= j < i ==> index[j].token_mint != mint
}

/// The position of the first line of the index for `mint`, where the index
/// has one.
pub open spec fn line_of(index: Seq<TestudoData>, mint: Pubkey) -> int {
    choose|i: int| is_first_line(index, mint, i)
}

/// The first line for an asset is the only line that is the first.
pub proof fn lemma_line_of(index: Seq<TestudoData>, mint: Pubkey, i: int)
    requires
        is_first_line(index, mint, i),
    ensures
        line_of(index, mint) == i,
{
    let c = line_of(index, mint);
    assert(is_first_line(index, mint, c));
    if c < i {
        assert(index[c].token_mint != mint);
    } else if i < c {
        assert(index[i].token_mint != mint);
    }
}

/// No asset stands twice in the index.
pub open spec fn index_unique(index: Seq<TestudoData>) -> bool {
    forall|i: int, j: int|
        0 <= i < j < index.len() ==> index[i].token_mint != index[j].token_mint
}

/// The index holds a line for `mint`.
pub open spec fn index_has(index: Seq<TestudoData>, mint: Pubkey) -> bool {
    exists|i: int| 0 <= i < index.len() && index[i].token_mint == mint
}

/// Where an asset stands on some line, it has a first line.
pub proof fn lemma_first_line_exists(index: Seq<TestudoData>, mint: Pubkey, at: int)
    requires
        0 <= at < index.len(),
        index[at].token_mint == mint,
    ensures
        is_first_line(index, mint, line_of(index, mint)),
    decreases at,
{
    if forall|j: int| 0 <= j < at ==> index[j].token_mint != mint {
        assert(is_first_line(index, mint, at));
    } else {
        let j = choose|j: int| 0 <= j < at && index[j].token_mint == mint;
        lemma_first_line_exists(index, mint, j);
    }
}

/// What the index records as held for `mint`, where it has a line for it.
pub open spec fn count_of(index: Seq<TestudoData>, mint: Pubkey) -> u64 {
    index[line_of(index, mint)].testudo_token_count
}

/// The index with `count` recorded as held for `mint`. An asset that it does
/// not hold changes nothing.
pub open spec fn recorded(index: Seq<TestudoData>, mint: Pubkey, count: u64) -> Seq<TestudoData> {
    if index_has(index, mint) {
        let line = line_of(index, mint);
        index.update(line, TestudoData { testudo_token_count: count, ..index[line] })
    } else {
        index
    }
}

/// The index with `amount` taken off what it records for `mint`, down to
/// nothing at the least.
pub open spec fn debited(index: Seq<TestudoData>, mint: Pubkey, amount: u64) -> Seq<TestudoData> {
    recorded(index, mint, fall(count_of(index, mint), amount))
}

/// The index with `amount` added to what it records for `mint`, up to the
/// most that can be recorded.
pub open spec fn credited(index: Seq<TestudoData>, mint: Pubkey, amount: u64) -> Seq<TestudoData> {
    recorded(index, mint, capped_sum(count_of(index, mint), amount))
}

/// Changing what an index records for an asset leaves its assets where they
/// stood.
pub proof fn lemma_recorded_keeps_assets(index: Seq<TestudoData>, mint: Pubkey, count: u64)
    ensures
        recorded(index, mint, count).len() == index.len(),
        forall|i: int|
            0 <= i < index.len() ==> (#[trigger] recorded(index, mint, count)[i]).token_mint
                == index[i].token_mint && recorded(index, mint, count)[i].testudo_pubkey
                == index[i].testudo_pubkey,
        index_unique(index) ==> index_unique(recorded(index, mint, count)),
        index_has(index, mint) ==> index_has(recorded(index, mint, count), mint) && count_of(
            recorded(index, mint, count),
            mint,
        ) == count,
{
    if index_has(index, mint) {
        let line = line_of(index, mint);
        let w = choose|i: int| 0 <= i < index.len() && index[i].token_mint == mint;
        lemma_first_line_exists(index, mint, w);
        let after = recorded(index, mint, count);
        assert(is_first_line(after, mint, line));
        lemma_line_of(after, mint, line);
    }
}

/// Taking from or adding to what an index records for an asset leaves its
/// assets where they stood.
pub proof fn lemma_counts_keep_assets(index: Seq<TestudoData>, mint: Pubkey, amount: u64)
    ensures
        debited(index, mint, amount).len() == index.len(),
        credited(index, mint, amount).len() == index.len(),
        index_unique(index) ==> index_unique(debited(index, mint, amount)) && index_unique(
            credited(index, mint, amount),
        ),
{
    lemma_recorded_keeps_assets(index, mint, fall(count_of(index, mint), amount));
    lemma_recorded_keeps_assets(index, mint, capped_sum(count_of(index, mint), amount));
}

/// The position of the first line of `index` for `mint`, if it has one.
pub fn find_line(index: &Vec<TestudoData>, mint: &Pubkey) -> (r: Option<usize>)
    ensures
        r is Some <==> index_has(index@, *mint),
        r matches Some(i) ==> is_first_line(index@, *mint, i as int) && i == line_of(index@, *mint),
{
    let n = index.len();
    let mut i: usize = 0;
    while i < n
        invariant
            n == index@.len(),
            i <= n,
            forall|j: int| 0 <= j < i ==> index@[j].token_mint != *mint,
        decreases n - i,
    {
        if index[i].token_mint == *mint {
            proof {
                lemma_line_of(index@, *mint, i as int);
            }
            return Some(i);
        }
        i += 1;
    }
    None
}

/// Records `count` as held for `mint`. An index without the asset stays as
/// it is.
pub fn record(index: &mut Vec<TestudoData>, mint: &Pubkey, count: u64)
    ensures
        final(index)@ == recorded(old(index)@, *mint, count),
{
    match find_line(index, mint) {
        None => {},
        Some(i) => {
            let was = index[i];
            index.set(
                i,
                TestudoData {
                    token_mint: was.token_mint,
                    testudo_pubkey: was.testudo_pubkey,
                    testudo_token_count: count,
                },
            );
        },
    }
}

/// Takes `amount` off what is recorded as held for `mint`, down to nothing
/// at the least.
pub fn debit(index: &mut Vec<TestudoData>, mint: &Pubkey, amount: u64)
    ensures
        final(index)@ == debited(old(index)@, *mint, amount),
{
    match find_line(index, mint) {
        None => {},
        Some(i) => {
            let held = index[i].testudo_token_count;
            let count = if held >= amount {
                held - amount
            } else {
                0
            };
            record(index, mint, count);
        },
    }
}

/// Adds `amount` to what is recorded as held for `mint`, up to the most that
/// can be recorded.
pub fn credit(index: &mut Vec<TestudoData>, mint: &Pubkey, amount: u64)
    ensures
        final(index)@ == credited(old(index)@, *mint, amount),
{
    match find_line(index, mint) {
        None => {},
        Some(i) => {
            let count = match index[i].testudo_token_count.checked_add(amount) {
                Some(sum) => sum,
                None => u64::MAX,
            };
            record(index, mint, count);
        },
    }
}

impl Centurion {
    /// The invariant of a vault: no asset has two sub-vaults.
    pub open spec fn wf(&self) -> bool {
        index_unique(self.testudos@)
    }

    /// The vault has a sub-vault for `mint`.
    pub open spec fn tracks(&self, mint: Pubkey) -> bool {
        index_has(self.testudos@, mint)
    }

    /// The same vault but for its index of sub-vaults and the time of the
    /// last access.
    pub open spec fn same_header(&self, other: &Centurion) -> bool {
        &&& self.authority == other.authority
        &&& self.backup_owner == other.backup_owner
        &&& self.pubkey_to_password == other.pubkey_to_password
        &&& self.bump == other.bump
        &&& self.is_initialized == other.is_initialized
        &&& self.created_at == other.created_at
        &&& self.lamport_balance == other.lamport_balance
    }

    /// The position of the line for `mint` in the index, if the vault has a
    /// sub-vault for it.
    pub fn find_testudo(&self, mint: &Pubkey) -> (r: Option<usize>)
        ensures
            r is Some <==> self.tracks(*mint),
            r matches Some(i) ==> is_first_line(self.testudos@, *mint, i as int) && i == line_of(
                self.testudos@,
                *mint,
            ),
    {
        find_line(&self.testudos, mint)
    }
}

} // verus!
