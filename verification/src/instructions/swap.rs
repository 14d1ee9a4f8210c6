//! Swapping one asset of a vault for another through a swap aggregator.
//!
//! A swap is a chain of calls that the vault signs: any number of setup
//! calls, the swap itself, and a cleanup call. Each call names the program
//! that it goes to; what it says is opaque and is relayed as it came. What
//! the swap did is read off the balances of the two sub-vaults before and
//! after, never off what a call claims.

use vstd::prelude::*;
use crate::accounts::{Account, Mint, Signer};
use crate::custom_accounts::centurion::{
    credit, credited, debit, debited, index_has, index_unique, lemma_counts_keep_assets,
    Centurion, TestudoData,
};
use crate::custom_accounts::legate::Legate;
use crate::custom_accounts::testudo::Testudo;
use crate::derivation::{vault_signer, vault_signer_of, VaultSigner};
use crate::errors::ErrorCode;
use crate::fees::fall;
use crate::guard::{
    binding_denied, check_binding, check_owner_and_unlock, check_treasury, or_else,
    treasury_denied, unlock_denied,
};
use crate::pubkey::Pubkey;

verus! {

/// The marker of wrapped native currency: a discovered asset with this
/// identity is not put on the index.
pub const WRAPPED_NATIVE: [u8; 32] = [
    6, 155, 136, 87, 254, 171, 129, 132,
    251, 104, 127, 99, 70, 24, 192, 53,
    218, 196, 57, 220, 26, 235, 59, 85,
    152, 160, 240, 0, 0, 0, 0, 1,
];

/// The marker of wrapped native currency.
pub open spec fn wrapped_native() -> Pubkey {
    Pubkey { bytes: WRAPPED_NATIVE }
}

/// One call of the chain as the request gives it: the program to call, the
/// accounts it is to see, by their position among the accounts supplied with
/// the request, and the data, which nothing here reads.
#[derive(Clone, Debug, PartialEq, Eq)]
pub struct JupiterInstructionWithIdxs {
    pub program_id: Pubkey,
    pub accounts_idxs: Vec<u8>,
    pub data: Vec<u8>,
}

/// An account supplied with the request for the calls to refer to.
#[derive(Clone, Copy, Debug, PartialEq, Eq)]
pub struct RemainingAccount {
    pub key: Pubkey,
    pub is_signer: bool,
    pub is_writable: bool,
}

/// A call as it is relayed, and the vault under whose signature it goes.
#[derive(Clone, Debug, PartialEq, Eq)]
pub struct DelegatedCall {
    pub program_id: Pubkey,
    pub accounts: Vec<RemainingAccount>,
    pub data: Vec<u8>,
    /// The vault that signs the call.
    pub signer: VaultSigner,
}

/// What a relayed call says.
pub struct CallView {
    pub program_id: Pubkey,
    pub accounts: Seq<RemainingAccount>,
    pub data: Seq<u8>,
    pub signer: VaultSigner,
}

impl View for DelegatedCall {
    type V = CallView;

    open spec fn view(&self) -> CallView {
        CallView {
            program_id: self.program_id,
            accounts: self.accounts@,
            data: self.data@,
            signer: self.signer,
        }
    }
}

/// One step of a swap, for the caller to carry out.
#[derive(Clone, Debug, PartialEq, Eq)]
pub enum SwapStep {
    /// Relay the call under the vault's signature. If it fails, the whole
    /// swap is undone.
    Invoke(DelegatedCall),
    /// Read what the source and the destination sub-vault hold.
    ReadBalances,
}

/// What a step says.
pub enum StepView {
    Invoke(CallView),
    ReadBalances,
}

impl View for SwapStep {
    type V = StepView;

    open spec fn view(&self) -> StepView {
        match self {
            SwapStep::Invoke(call) => StepView::Invoke(call@),
            SwapStep::ReadBalances => StepView::ReadBalances,
        }
    }
}

/// Every position that the call names is one of the `supplied` accounts.
pub open spec fn resolvable(idxs: Seq<u8>, supplied: nat) -> bool {
    forall|i: int| 0 <= i < idxs.len() ==> idxs[i] < supplied
}

/// The accounts that the positions stand for, in the order of the positions.
pub open spec fn resolved(idxs: Seq<u8>, remaining: Seq<RemainingAccount>) -> Seq<
    RemainingAccount,
> {
    Seq::new(idxs.len(), |i: int| remaining[idxs[i] as int])
}

/// The call to `program_id` that a request stands for.
pub open spec fn call_for(
    program_id: Pubkey,
    request: &JupiterInstructionWithIdxs,
    remaining: Seq<RemainingAccount>,
    signer: VaultSigner,
) -> CallView {
    CallView {
        program_id,
        accounts: resolved(request.accounts_idxs@, remaining),
        data: request.data@,
        signer,
    }
}

/// Builds the call to `program_id` that `request` stands for, to go under
/// the signature of `signer`: its accounts are looked up among the supplied
/// ones, its data is taken as it is. A position with no account behind it is
/// an error.
pub fn build_call(
    program_id: Pubkey,
    request: &JupiterInstructionWithIdxs,
    remaining: &Vec<RemainingAccount>,
    signer: VaultSigner,
) -> (r: Result<DelegatedCall, ErrorCode>)
    ensures
        r is Ok <==> resolvable(request.accounts_idxs@, remaining@.len()),
        r matches Ok(call) ==> call@ == call_for(program_id, request, remaining@, signer),
        r matches Err(e) ==> e == ErrorCode::InvalidRemainingAccounts,
{
    let mut accounts: Vec<RemainingAccount> = Vec::new();
    let n = request.accounts_idxs.len();
    let mut i: usize = 0;
    while i < n
        invariant
            n == request.accounts_idxs@.len(),
            i <= n,
            accounts@.len() == i,
            forall|k: int| 0 <= k < i ==> request.accounts_idxs@[k] < remaining@.len(),
            forall|k: int|
                0 <= k < i ==> accounts@[k] == remaining@[request.accounts_idxs@[k] as int],
        decreases n - i,
    {
        let at: usize = request.accounts_idxs[i] as usize;
        if at >= remaining.len() {
            return Err(ErrorCode::InvalidRemainingAccounts);
        }
        accounts.push(remaining[at]);
        i += 1;
    }
    let mut data: Vec<u8> = Vec::new();
    let m = request.data.len();
    let mut j: usize = 0;
    while j < m
        invariant
            m == request.data@.len(),
            j <= m,
            data@ == request.data@.subrange(0, j as int),
        decreases m - j,
    {
        data.push(request.data[j]);
        assert(data@ =~= request.data@.subrange(0, j as int + 1));
        j += 1;
    }
    proof {
        assert(data@ =~= request.data@);
        assert(accounts@ =~= resolved(request.accounts_idxs@, remaining@));
    }
    Ok(DelegatedCall { program_id, accounts, data, signer })
}

/// The accounts of `process_swap`.
#[derive(Clone, Debug, PartialEq, Eq)]
pub struct Swap {
    pub authority: Signer,
    /// The holder of the unlock key.
    pub valid_signer_of_password: Signer,
    pub centurion: Account<Centurion>,
    /// The sub-vault that gives.
    pub source_testudo: Testudo,
    /// The sub-vault that receives.
    pub destination_testudo: Testudo,
    pub source_mint: Mint,
    pub destination_mint: Mint,
    pub treasury: Pubkey,
    pub legate: Account<Legate>,
}

/// The index once one discovered asset is put on it: an asset that the index
/// holds already is passed over, and so is the marker of wrapped native
/// currency. A new line records nothing as held, whatever the request says.
pub open spec fn with_discovered(index: Seq<TestudoData>, found: TestudoData) -> Seq<TestudoData> {
    if index_has(index, found.token_mint) || found.token_mint == wrapped_native() {
        index
    } else {
        index.push(
            TestudoData {
                token_mint: found.token_mint,
                testudo_pubkey: found.testudo_pubkey,
                testudo_token_count: 0,
            },
        )
    }
}

/// The index once the discovered assets are put on it, one after the other.
pub open spec fn registered(index: Seq<TestudoData>, discovered: Seq<TestudoData>) -> Seq<
    TestudoData,
>
    decreases discovered.len(),
{
    if discovered.len() == 0 {
        index
    } else {
        with_discovered(registered(index, discovered.drop_last()), discovered.last())
    }
}

/// Putting discovered assets on an index in which no asset stands twice
/// leaves one in which none does, and takes no line away.
pub proof fn lemma_registered_unique(index: Seq<TestudoData>, discovered: Seq<TestudoData>)
    ensures
        index_unique(index) ==> index_unique(registered(index, discovered)),
        index.len() <= registered(index, discovered).len(),
        forall|i: int| 0 <= i < index.len() ==> registered(index, discovered)[i] == index[i],
    decreases discovered.len(),
{
    if discovered.len() > 0 {
        lemma_registered_unique(index, discovered.drop_last());
    }
}

/// Putting the same discovered assets on the index a second time changes
/// nothing.
pub proof fn lemma_registered_idempotent(index: Seq<TestudoData>, discovered: Seq<TestudoData>)
    ensures
        registered(registered(index, discovered), discovered) == registered(index, discovered),
{
    let once = registered(index, discovered);
    lemma_registered_settled(index, discovered, discovered.len() as int);
    lemma_registered_noop(once, discovered);
}

/// After the first `n` discovered assets are put on the index, each of them
/// is on it or is the marker; and that stays so when more lines follow.
proof fn lemma_registered_settled(index: Seq<TestudoData>, discovered: Seq<TestudoData>, n: int)
    requires
        0 <= n <= discovered.len(),
    ensures
        forall|k: int|
            0 <= k < n ==> index_has(
                registered(index, discovered.take(n)),
                #[trigger] discovered[k].token_mint,
            ) || discovered[k].token_mint == wrapped_native(),
        n == discovered.len() ==> discovered.take(n) == discovered,
    decreases n,
{
    if n == discovered.len() {
        assert(discovered.take(n) =~= discovered);
    }
    if n > 0 {
        lemma_registered_settled(index, discovered, n - 1);
        let before = registered(index, discovered.take(n - 1));
        let current = discovered.take(n);
        assert(current.drop_last() =~= discovered.take(n - 1));
        assert(current.last() == discovered[n - 1]);
        let after = registered(index, current);
        assert(after == with_discovered(before, discovered[n - 1]));
        assert forall|k: int| 0 <= k < n implies index_has(
            after,
            #[trigger] discovered[k].token_mint,
        ) || discovered[k].token_mint == wrapped_native() by {
            if k < n - 1 {
                if index_has(before, discovered[k].token_mint) {
                    let w = choose|i: int|
                        0 <= i < before.len() && before[i].token_mint == discovered[k].token_mint;
                    assert(after[w].token_mint == discovered[k].token_mint);
                }
            } else {
                if !(index_has(before, discovered[k].token_mint) || discovered[k].token_mint
                    == wrapped_native()) {
                    assert(after[before.len() as int].token_mint == discovered[k].token_mint);
                } else if index_has(before, discovered[k].token_mint) {
                    assert(after == before);
                }
            }
        }
    }
}

/// Where every discovered asset is on the index or is the marker, putting
/// them on it changes nothing.
proof fn lemma_registered_noop(index: Seq<TestudoData>, discovered: Seq<TestudoData>)
    requires
        forall|k: int|
            0 <= k < discovered.len() ==> index_has(index, #[trigger] discovered[k].token_mint)
                || discovered[k].token_mint == wrapped_native(),
    ensures
        registered(index, discovered) == index,
    decreases discovered.len(),
{
    if discovered.len() > 0 {
        let init = discovered.drop_last();
        assert forall|k: int| 0 <= k < init.len() implies index_has(
            index,
            #[trigger] init[k].token_mint,
        ) || init[k].token_mint == wrapped_native() by {
            assert(init[k] == discovered[k]);
        }
        lemma_registered_noop(index, init);
        assert(discovered.last() == discovered[discovered.len() - 1]);
    }
}

/// Every call of the chain names only accounts that were supplied.
pub open spec fn chain_resolvable(
    jupiter_swap: &JupiterInstructionWithIdxs,
    jupiter_setup: Seq<JupiterInstructionWithIdxs>,
    jupiter_cleanup: &JupiterInstructionWithIdxs,
    supplied: nat,
) -> bool {
    &&& forall|i: int|
        0 <= i < jupiter_setup.len() ==> resolvable(
            (#[trigger] jupiter_setup[i]).accounts_idxs@,
            supplied,
        )
    &&& resolvable(jupiter_swap.accounts_idxs@, supplied)
    &&& resolvable(jupiter_cleanup.accounts_idxs@, supplied)
}

/// The first reason for which a swap is not begun.
pub open spec fn swap_denied(
    ctx: &Swap,
    jupiter_swap: &JupiterInstructionWithIdxs,
    jupiter_setup: Seq<JupiterInstructionWithIdxs>,
    jupiter_cleanup: &JupiterInstructionWithIdxs,
    testudo_data: Seq<TestudoData>,
    remaining: Seq<RemainingAccount>,
) -> Option<ErrorCode> {
    or_else(
        unlock_denied(ctx.authority.key, ctx.valid_signer_of_password.key, &ctx.centurion.data),
        or_else(
            treasury_denied(ctx.treasury, &ctx.legate.data),
            or_else(
                if ctx.legate.data.lists(ctx.destination_mint.key) {
                    None
                } else {
                    Some(ErrorCode::InvalidTokenMint)
                },
                or_else(
                    binding_denied(ctx.source_testudo, ctx.centurion.key, ctx.source_mint.key),
                    or_else(
                        binding_denied(
                            ctx.destination_testudo,
                            ctx.centurion.key,
                            ctx.destination_mint.key,
                        ),
                        if !chain_resolvable(
                            jupiter_swap,
                            jupiter_setup,
                            jupiter_cleanup,
                            remaining.len(),
                        ) {
                            Some(ErrorCode::InvalidRemainingAccounts)
                        } else if registered(ctx.centurion.data.testudos@, testudo_data).len()
                            > ctx.legate.data.max_testudos_per_user {
                            Some(ErrorCode::MaxTestudosReached)
                        } else {
                            None
                        },
                    ),
                ),
            ),
        ),
    )
}

/// The steps of a swap, in the order in which they are carried out: the
/// setup calls as they were given, a reading of the two balances, the swap
/// call, the cleanup call, and a second reading. Each call goes to the
/// program that it names, under the signature of `signer`.
pub open spec fn swap_script(
    jupiter_swap: &JupiterInstructionWithIdxs,
    jupiter_setup: Seq<JupiterInstructionWithIdxs>,
    jupiter_cleanup: &JupiterInstructionWithIdxs,
    remaining: Seq<RemainingAccount>,
    signer: VaultSigner,
) -> Seq<StepView> {
    Seq::new(
        jupiter_setup.len(),
        |i: int|
            StepView::Invoke(
                call_for(jupiter_setup[i].program_id, &jupiter_setup[i], remaining, signer),
            ),
    ) + seq![
        StepView::ReadBalances,
        StepView::Invoke(call_for(jupiter_swap.program_id, jupiter_swap, remaining, signer)),
        StepView::Invoke(call_for(jupiter_cleanup.program_id, jupiter_cleanup, remaining, signer)),
        StepView::ReadBalances,
    ]
}

/// What the steps say, one by one.
pub open spec fn steps_view(steps: Seq<SwapStep>) -> Seq<StepView> {
    steps.map_values(|s: SwapStep| s@)
}

/// Puts the discovered assets on a copy of the index.
fn register_discovered(index: &Vec<TestudoData>, testudo_data: &Vec<TestudoData>) -> (r: Vec<
    TestudoData,
>)
    ensures
        r@ == registered(index@, testudo_data@),
{
    let marker = Pubkey::new_from_array(WRAPPED_NATIVE);
    let mut out: Vec<TestudoData> = Vec::new();
    let n = index.len();
    let mut i: usize = 0;
    while i < n
        invariant
            n == index@.len(),
            i <= n,
            out@ == index@.subrange(0, i as int),
        decreases n - i,
    {
        out.push(index[i]);
        assert(out@ =~= index@.subrange(0, i as int + 1));
        i += 1;
    }
    assert(out@ =~= index@);
    let m = testudo_data.len();
    let mut k: usize = 0;
    assert(testudo_data@.take(0) =~= Seq::<TestudoData>::empty());
    while k < m
        invariant
            m == testudo_data@.len(),
            k <= m,
            marker == wrapped_native(),
            out@ == registered(index@, testudo_data@.take(k as int)),
        decreases m - k,
    {
        let found = testudo_data[k];
        proof {
            let next = testudo_data@.take(k as int + 1);
            assert(next.drop_last() =~= testudo_data@.take(k as int));
            assert(next.last() == found);
        }
        let mut known = false;
        let len = out.len();
        let mut j: usize = 0;
        while j < len
            invariant
                len == out@.len(),
                j <= len,
                known == exists|q: int| 0 <= q < j && out@[q].token_mint == found.token_mint,
            decreases len - j,
        {
            if out[j].token_mint == found.token_mint {
                known = true;
            }
            j += 1;
        }
        if !known && found.token_mint != marker {
            out.push(
                TestudoData {
                    token_mint: found.token_mint,
                    testudo_pubkey: found.testudo_pubkey,
                    testudo_token_count: 0,
                },
            );
        }
        k += 1;
    }
    assert(testudo_data@.take(m as int) =~= testudo_data@);
    out
}

/// Begins a swap on the word of the owner and of the unlock key: the
/// discovered assets are put on the vault's index, and the steps of the swap
/// are handed back for the caller to carry out in order, each call under the
/// vault's signature. The destination must be a whitelisted asset. When the
/// steps are done, `settle_swap` records what the swap did.
pub fn process_swap(
    ctx: &mut Swap,
    jupiter_swap: &JupiterInstructionWithIdxs,
    jupiter_setup: &Vec<JupiterInstructionWithIdxs>,
    jupiter_cleanup: &JupiterInstructionWithIdxs,
    testudo_data: &Vec<TestudoData>,
    remaining_accounts: &Vec<RemainingAccount>,
) -> (r: Result<Vec<SwapStep>, ErrorCode>)
    ensures
        r is Ok <==> swap_denied(
            old(ctx),
            jupiter_swap,
            jupiter_setup@,
            jupiter_cleanup,
            testudo_data@,
            remaining_accounts@,
        ) is None,
        r matches Err(e) ==> Some(e) == swap_denied(
            old(ctx),
            jupiter_swap,
            jupiter_setup@,
            jupiter_cleanup,
            testudo_data@,
            remaining_accounts@,
        ) && *final(ctx) == *old(ctx),
        r matches Ok(steps) ==> {
            &&& steps_view(steps@) == swap_script(
                jupiter_swap,
                jupiter_setup@,
                jupiter_cleanup,
                remaining_accounts@,
                vault_signer_of(&old(ctx).centurion.data),
            )
            &&& final(ctx).centurion.data.testudos@ == registered(
                old(ctx).centurion.data.testudos@,
                testudo_data@,
            )
            &&& final(ctx).centurion.data.same_header(&old(ctx).centurion.data)
            &&& final(ctx).centurion.data.last_accessed == old(ctx).centurion.data.last_accessed
            &&& final(ctx).centurion.data.testudos@.len() <= old(ctx).legate.data.max_testudos_per_user
            &&& old(ctx).centurion.data.wf() ==> final(ctx).centurion.data.wf()
            &&& final(ctx).centurion.key == old(ctx).centurion.key
            &&& final(ctx).centurion.lamports == old(ctx).centurion.lamports
            &&& final(ctx).authority == old(ctx).authority
            &&& final(ctx).valid_signer_of_password == old(ctx).valid_signer_of_password
            &&& final(ctx).source_testudo == old(ctx).source_testudo
            &&& final(ctx).destination_testudo == old(ctx).destination_testudo
            &&& final(ctx).source_mint == old(ctx).source_mint
            &&& final(ctx).destination_mint == old(ctx).destination_mint
            &&& final(ctx).treasury == old(ctx).treasury
            &&& final(ctx).legate == old(ctx).legate
        },
{
    check_owner_and_unlock(&ctx.authority, &ctx.valid_signer_of_password, &ctx.centurion.data)?;
    check_treasury(&ctx.treasury, &ctx.legate.data)?;
    if !ctx.legate.data.is_whitelisted(&ctx.destination_mint.key) {
        return Err(ErrorCode::InvalidTokenMint);
    }
    check_binding(&ctx.source_testudo, &ctx.centurion.key, &ctx.source_mint.key)?;
    check_binding(&ctx.destination_testudo, &ctx.centurion.key, &ctx.destination_mint.key)?;

    let signer = vault_signer(&ctx.centurion.data);
    let mut steps: Vec<SwapStep> = Vec::new();
    let n = jupiter_setup.len();
    let mut i: usize = 0;
    while i < n
        invariant
            n == jupiter_setup@.len(),
            i <= n,
            steps@.len() == i,
            *ctx == *old(ctx),
            signer == vault_signer_of(&ctx.centurion.data),
            unlock_denied(
                ctx.authority.key,
                ctx.valid_signer_of_password.key,
                &ctx.centurion.data,
            ) is None,
            treasury_denied(ctx.treasury, &ctx.legate.data) is None,
            ctx.legate.data.lists(ctx.destination_mint.key),
            binding_denied(ctx.source_testudo, ctx.centurion.key, ctx.source_mint.key) is None,
            binding_denied(
                ctx.destination_testudo,
                ctx.centurion.key,
                ctx.destination_mint.key,
            ) is None,
            forall|k: int|
                0 <= k < i ==> resolvable(
                    (#[trigger] jupiter_setup@[k]).accounts_idxs@,
                    remaining_accounts@.len(),
                ),
            forall|k: int|
                0 <= k < i ==> (#[trigger] steps@[k])@ == StepView::Invoke(
                    call_for(
                        jupiter_setup@[k].program_id,
                        &jupiter_setup@[k],
                        remaining_accounts@,
                        signer,
                    ),
                ),
        decreases n - i,
    {
        match build_call(jupiter_setup[i].program_id, &jupiter_setup[i], remaining_accounts, signer) {
            Err(e) => {
                assert(!resolvable(
                    jupiter_setup@[i as int].accounts_idxs@,
                    remaining_accounts@.len(),
                ));
                return Err(e);
            },
            Ok(call) => {
                steps.push(SwapStep::Invoke(call));
            },
        }
        i += 1;
    }
    let swap_call = build_call(jupiter_swap.program_id, jupiter_swap, remaining_accounts, signer)?;
    let cleanup_call = build_call(
        jupiter_cleanup.program_id,
        jupiter_cleanup,
        remaining_accounts,
        signer,
    )?;
    let index = register_discovered(&ctx.centurion.data.testudos, testudo_data);
    if index.len() > ctx.legate.data.max_testudos_per_user as usize {
        return Err(ErrorCode::MaxTestudosReached);
    }
    steps.push(SwapStep::ReadBalances);
    steps.push(SwapStep::Invoke(swap_call));
    steps.push(SwapStep::Invoke(cleanup_call));
    steps.push(SwapStep::ReadBalances);
    proof {
        assert(steps_view(steps@) =~= swap_script(
            jupiter_swap,
            jupiter_setup@,
            jupiter_cleanup,
            remaining_accounts@,
            signer,
        ));
        lemma_registered_unique(ctx.centurion.data.testudos@, testudo_data@);
    }
    ctx.centurion.data.testudos = index;
    Ok(steps)
}

/// What the two sub-vaults of a swap hold at one moment.
#[derive(Clone, Copy, Debug, PartialEq, Eq, Structural)]
pub struct SwapBalances {
    pub source: u64,
    pub destination: u64,
}

/// What a swap did, read off the balances.
#[derive(Clone, Copy, Debug, PartialEq, Eq, Structural)]
pub struct Realized {
    /// By how much the source fell.
    pub sold: u64,
    /// By how much the destination rose.
    pub received: u64,
}

/// What a swap did, given the two readings.
pub open spec fn realized(before: SwapBalances, after: SwapBalances) -> Realized {
    Realized {
        sold: fall(before.source, after.source),
        received: fall(after.destination, before.destination),
    }
}

/// Records what a swap did, once its steps are carried out: the amounts sold
/// and received are the differences of the two readings, and what the vault
/// records for the two assets moves by them, held at nothing and at the most
/// that can be recorded.
pub fn settle_swap(
    vault: &mut Centurion,
    source_mint: &Pubkey,
    destination_mint: &Pubkey,
    before: SwapBalances,
    after: SwapBalances,
    now: u64,
) -> (r: Realized)
    ensures
        r == realized(before, after),
        final(vault).testudos@ == credited(
            debited(old(vault).testudos@, *source_mint, r.sold),
            *destination_mint,
            r.received,
        ),
        final(vault).last_accessed == now,
        final(vault).same_header(old(vault)),
        old(vault).wf() ==> final(vault).wf(),
{
    let sold: u64 = if before.source >= after.source {
        before.source - after.source
    } else {
        0
    };
    let received: u64 = if after.destination >= before.destination {
        after.destination - before.destination
    } else {
        0
    };
    proof {
        lemma_counts_keep_assets(vault.testudos@, *source_mint, sold);
        lemma_counts_keep_assets(
            debited(vault.testudos@, *source_mint, sold),
            *destination_mint,
            received,
        );
    }
    debit(&mut vault.testudos, source_mint, sold);
    credit(&mut vault.testudos, destination_mint, received);
    vault.last_accessed = now;
    Realized { sold, received }
}

} // verus!
