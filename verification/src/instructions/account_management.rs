//! Creating and closing the registry, a vault and a sub-vault.

use vstd::prelude::*;
use crate::accounts::{Account, Mint, Signer, TokenAccount};
use crate::calls::{lamport_route, route_lamports, route_tokens, token_route, Movement};
use crate::custom_accounts::centurion::{
    index_has, index_unique, is_first_line, lemma_line_of, line_of, Centurion, TestudoData,
};
use crate::custom_accounts::legate::Legate;
use crate::custom_accounts::testudo::Testudo;
use crate::errors::ErrorCode;
use crate::fees::{fall, fee_computable, split_fee, split_of, FeeSplit};
use crate::guard::{
    admin_denied, check_admin, check_holding, check_owner, check_owner_and_unlock,
    check_testudo, check_treasury, holding_denied, or_else, owner_denied, testudo_denied,
    treasury_denied, unlock_denied,
};
use crate::instructions::initial_whitelist::{initial_listings, initial_whitelist};
use crate::pubkey::Pubkey;

verus! {

/// The fee of a new registry, in basis points: 0.15%.
pub const INITIAL_FEE_RATE: u16 = 15;

/// How many vaults an owner may have under a new registry.
pub const INITIAL_MAX_CENTURIONS: u8 = 1;

/// How many sub-vaults a vault may have under a new registry.
pub const INITIAL_MAX_TESTUDOS: u16 = 30;

/// How many assets the whitelist of a new registry may hold.
pub const INITIAL_MAX_WHITELISTED_MINTS: u16 = 50;

/// The accounts of `process_init_legate`.
#[derive(Clone, Debug, PartialEq, Eq)]
pub struct InitLegate {
    /// Who creates the registry and becomes its authority.
    pub authority: Signer,
    pub legate: Account<Legate>,
}

/// The registry as its creation leaves it.
pub open spec fn is_new_registry(
    registry: &Legate,
    authority: Pubkey,
    treasury: Pubkey,
    bump: u8,
    now: u64,
) -> bool {
    &&& registry.authority == authority
    &&& registry.bump == bump
    &&& registry.is_initialized
    &&& registry.last_updated == now
    &&& registry.max_centurions_per_user == INITIAL_MAX_CENTURIONS
    &&& registry.max_testudos_per_user == INITIAL_MAX_TESTUDOS
    &&& registry.max_whitelisted_mints == INITIAL_MAX_WHITELISTED_MINTS
    &&& registry.listings() == initial_listings()
    &&& registry.treasury_acc == treasury
    &&& registry.percent_for_fees == INITIAL_FEE_RATE
}

/// Creates the registry: the signer becomes its authority, fees go to
/// `treasury_acc`, and limits, fee and whitelist start at their first values.
/// A registry that is initialized is not created again.
pub fn process_init_legate(ctx: &mut InitLegate, treasury_acc: Pubkey, bump: u8, now: u64) -> (r:
    Result<(), ErrorCode>)
    ensures
        r is Ok <==> !old(ctx).legate.data.is_initialized,
        r matches Err(e) ==> e == ErrorCode::AccountAlreadyInitialized && *final(ctx) == *old(ctx),
        r is Ok ==> {
            &&& is_new_registry(
                &final(ctx).legate.data,
                old(ctx).authority.key,
                treasury_acc,
                bump,
                now,
            )
            &&& final(ctx).legate.data.wf()
            &&& final(ctx).authority == old(ctx).authority
            &&& final(ctx).legate.key == old(ctx).legate.key
            &&& final(ctx).legate.lamports == old(ctx).legate.lamports
        },
{
    if ctx.legate.data.is_initialized {
        return Err(ErrorCode::AccountAlreadyInitialized);
    }
    let whitelist = initial_whitelist();
    ctx.legate.data.authority = ctx.authority.key;
    ctx.legate.data.bump = bump;
    ctx.legate.data.is_initialized = true;
    ctx.legate.data.last_updated = now;
    ctx.legate.data.max_centurions_per_user = INITIAL_MAX_CENTURIONS;
    ctx.legate.data.max_testudos_per_user = INITIAL_MAX_TESTUDOS;
    ctx.legate.data.max_whitelisted_mints = INITIAL_MAX_WHITELISTED_MINTS;
    ctx.legate.data.testudo_token_whitelist = whitelist;
    ctx.legate.data.treasury_acc = treasury_acc;
    ctx.legate.data.percent_for_fees = INITIAL_FEE_RATE;
    Ok(())
}

/// The accounts of `process_close_legate`.
#[derive(Clone, Debug, PartialEq, Eq)]
pub struct CloseLegate {
    pub authority: Signer,
    pub legate: Account<Legate>,
}

/// Closes the registry on the word of its authority, who gets back what the
/// account holds. Vaults that were created under it are not touched.
pub fn process_close_legate(ctx: &mut CloseLegate) -> (r: Result<Vec<Movement>, ErrorCode>)
    ensures
        r is Ok <==> admin_denied(old(ctx).authority.key, &old(ctx).legate.data) is None,
        r matches Err(e) ==> Some(e) == admin_denied(old(ctx).authority.key, &old(ctx).legate.data)
            && *final(ctx) == *old(ctx),
        r matches Ok(plan) ==> {
            &&& plan@ == seq![
                Movement::Lamports {
                    from: old(ctx).legate.key,
                    to: old(ctx).authority.key,
                    amount: old(ctx).legate.lamports,
                },
            ]
            &&& *final(ctx) == (CloseLegate {
                legate: Account {
                    data: Legate { is_initialized: false, ..old(ctx).legate.data },
                    ..old(ctx).legate
                },
                ..*old(ctx)
            })
        },
{
    check_admin(&ctx.authority, &ctx.legate.data)?;
    ctx.legate.data.is_initialized = false;
    let mut plan: Vec<Movement> = Vec::new();
    plan.push(
        Movement::Lamports { from: ctx.legate.key, to: ctx.authority.key, amount: ctx.legate.lamports },
    );
    Ok(plan)
}

/// The accounts of `process_init_centurion`.
#[derive(Clone, Debug, PartialEq, Eq)]
pub struct InitCenturion {
    /// Who creates the vault and owns it from then on.
    pub authority: Signer,
    pub centurion: Account<Centurion>,
}

/// The vault as its creation leaves it.
pub open spec fn is_new_vault(
    vault: &Centurion,
    owner: Pubkey,
    password_pubkey: Pubkey,
    backup_owner: Option<Pubkey>,
    bump: u8,
    now: u64,
) -> bool {
    &&& vault.authority == owner
    &&& vault.backup_owner == backup_owner
    &&& vault.pubkey_to_password == password_pubkey
    &&& vault.bump == bump
    &&& vault.is_initialized
    &&& vault.created_at == now
    &&& vault.last_accessed == now
    &&& vault.lamport_balance == 0
    &&& vault.testudos@ == Seq::<TestudoData>::empty()
}

/// Creates the vault of the signer, with the unlock key and, where one is
/// given, the backup identity. An owner has one vault: its address follows
/// from the owner's identity alone, so a second one finds the first.
pub fn process_init_centurion(
    ctx: &mut InitCenturion,
    password_pubkey: Pubkey,
    backup_owner: Option<Pubkey>,
    bump: u8,
    now: u64,
) -> (r: Result<(), ErrorCode>)
    ensures
        r is Ok <==> !old(ctx).centurion.data.is_initialized,
        r matches Err(e) ==> e == ErrorCode::AccountAlreadyInitialized && *final(ctx) == *old(ctx),
        r is Ok ==> {
            &&& is_new_vault(
                &final(ctx).centurion.data,
                old(ctx).authority.key,
                password_pubkey,
                backup_owner,
                bump,
                now,
            )
            &&& final(ctx).centurion.data.wf()
            &&& final(ctx).authority == old(ctx).authority
            &&& final(ctx).centurion.key == old(ctx).centurion.key
            &&& final(ctx).centurion.lamports == old(ctx).centurion.lamports
        },
{
    if ctx.centurion.data.is_initialized {
        return Err(ErrorCode::AccountAlreadyInitialized);
    }
    ctx.centurion.data.authority = ctx.authority.key;
    ctx.centurion.data.backup_owner = backup_owner;
    ctx.centurion.data.pubkey_to_password = password_pubkey;
    ctx.centurion.data.bump = bump;
    ctx.centurion.data.is_initialized = true;
    ctx.centurion.data.created_at = now;
    ctx.centurion.data.last_accessed = now;
    ctx.centurion.data.lamport_balance = 0;
    ctx.centurion.data.testudos = Vec::new();
    Ok(())
}

/// The accounts of `process_close_centurion`.
#[derive(Clone, Debug, PartialEq, Eq)]
pub struct CloseCenturion {
    pub authority: Signer,
    /// The holder of the unlock key.
    pub valid_signer_of_password: Signer,
    pub centurion: Account<Centurion>,
    pub legate: Account<Legate>,
    /// Where the fee goes.
    pub treasury: Pubkey,
}

/// What closing a vault parts: the fee on what its account holds above the
/// reserved minimum, and all the rest of what it holds, the reserve included.
pub open spec fn closing_split(held: u64, minimum_reserve: u64, rate_bps: u16) -> FeeSplit {
    let fee = split_of(fall(held, minimum_reserve), rate_bps).fee;
    FeeSplit { fee, net: (held - fee) as u64 }
}

/// The first reason for which a vault is not closed.
pub open spec fn close_centurion_denied(ctx: &CloseCenturion, minimum_reserve: u64) -> Option<
    ErrorCode,
> {
    or_else(
        unlock_denied(ctx.authority.key, ctx.valid_signer_of_password.key, &ctx.centurion.data),
        or_else(
            if ctx.centurion.data.testudos@.len() > 0 {
                Some(ErrorCode::CenturionNotEmptyOfSplTokens)
            } else {
                None
            },
            or_else(
                treasury_denied(ctx.treasury, &ctx.legate.data),
                if fee_computable(
                    fall(ctx.centurion.lamports, minimum_reserve),
                    ctx.legate.data.percent_for_fees,
                ) {
                    None
                } else {
                    Some(ErrorCode::ArithmeticOverflow)
                },
            ),
        ),
    )
}

/// Closes a vault that has no sub-vault left, on the word of its owner and
/// of the unlock key. The fee is taken on what the account holds above
/// `minimum_reserve` and goes to the treasury; the owner gets back all the
/// rest, the whole reserve included. A vault that holds no more than its
/// reserve pays no fee.
pub fn process_close_centurion(ctx: &mut CloseCenturion, minimum_reserve: u64) -> (r: Result<
    Vec<Movement>,
    ErrorCode,
>)
    ensures
        r is Ok <==> close_centurion_denied(old(ctx), minimum_reserve) is None,
        r matches Err(e) ==> Some(e) == close_centurion_denied(old(ctx), minimum_reserve) && *final(ctx) == *old(ctx),
        r matches Ok(plan) ==> {
            &&& plan@ == lamport_route(
                old(ctx).centurion.key,
                old(ctx).treasury,
                old(ctx).authority.key,
                closing_split(
                    old(ctx).centurion.lamports,
                    minimum_reserve,
                    old(ctx).legate.data.percent_for_fees,
                ),
            )
            &&& closing_split(
                old(ctx).centurion.lamports,
                minimum_reserve,
                old(ctx).legate.data.percent_for_fees,
            ).net >= old(ctx).centurion.lamports - fall(old(ctx).centurion.lamports, minimum_reserve)
            &&& *final(ctx) == (CloseCenturion {
                centurion: Account {
                    data: Centurion {
                        is_initialized: false,
                        lamport_balance: 0,
                        ..old(ctx).centurion.data
                    },
                    ..old(ctx).centurion
                },
                ..*old(ctx)
            })
        },
{
    check_owner_and_unlock(&ctx.authority, &ctx.valid_signer_of_password, &ctx.centurion.data)?;
    if ctx.centurion.data.testudos.len() > 0 {
        return Err(ErrorCode::CenturionNotEmptyOfSplTokens);
    }
    check_treasury(&ctx.treasury, &ctx.legate.data)?;
    let held = ctx.centurion.lamports;
    let above: u64 = if held >= minimum_reserve {
        held - minimum_reserve
    } else {
        0
    };
    let fee = split_fee(above, ctx.legate.data.percent_for_fees)?.fee;
    ctx.centurion.data.is_initialized = false;
    ctx.centurion.data.lamport_balance = 0;
    Ok(
        route_lamports(
            ctx.centurion.key,
            ctx.treasury,
            ctx.authority.key,
            FeeSplit { fee, net: held - fee },
        ),
    )
}

/// The accounts of `process_init_testudo`.
#[derive(Clone, Debug, PartialEq, Eq)]
pub struct InitTestudo {
    pub authority: Signer,
    pub legate: Account<Legate>,
    pub centurion: Account<Centurion>,
    /// Where the sub-vault is to live.
    pub testudo: Pubkey,
    /// The asset that it is to hold.
    pub mint: Mint,
}

/// The first reason for which a sub-vault is not created.
pub open spec fn init_testudo_denied(ctx: &InitTestudo) -> Option<ErrorCode> {
    if !ctx.legate.data.is_initialized {
        Some(ErrorCode::LegateNotInitialized)
    } else if owner_denied(ctx.authority.key, &ctx.centurion.data) is Some {
        owner_denied(ctx.authority.key, &ctx.centurion.data)
    } else if !ctx.legate.data.lists(ctx.mint.key) {
        Some(ErrorCode::UnsupportedTokenMint)
    } else if ctx.centurion.data.tracks(ctx.mint.key) {
        Some(ErrorCode::MintAlreadyInList)
    } else if ctx.centurion.data.testudos@.len() >= ctx.legate.data.max_testudos_per_user {
        Some(ErrorCode::MaxTestudosReached)
    } else {
        None
    }
}

/// Gives the signer's vault a sub-vault for a whitelisted asset that it does
/// not hold yet, while the vault has fewer sub-vaults than the registry
/// allows. The new line of the index records nothing as held.
pub fn process_init_testudo(ctx: &mut InitTestudo, now: u64) -> (r: Result<(), ErrorCode>)
    ensures
        r is Ok <==> init_testudo_denied(old(ctx)) is None,
        r matches Err(e) ==> Some(e) == init_testudo_denied(old(ctx)) && *final(ctx) == *old(ctx),
        r is Ok ==> {
            &&& final(ctx).centurion.data.testudos@ == old(ctx).centurion.data.testudos@.push(
                TestudoData {
                    token_mint: old(ctx).mint.key,
                    testudo_pubkey: old(ctx).testudo,
                    testudo_token_count: 0,
                },
            )
            &&& final(ctx).centurion.data.last_accessed == now
            &&& final(ctx).centurion.data.same_header(&old(ctx).centurion.data)
            &&& final(ctx).centurion.data.testudos@.len() <= old(ctx).legate.data.max_testudos_per_user
            &&& old(ctx).centurion.data.wf() ==> final(ctx).centurion.data.wf()
            &&& final(ctx).centurion.key == old(ctx).centurion.key
            &&& final(ctx).centurion.lamports == old(ctx).centurion.lamports
            &&& final(ctx).authority == old(ctx).authority
            &&& final(ctx).legate == old(ctx).legate
            &&& final(ctx).testudo == old(ctx).testudo
            &&& final(ctx).mint == old(ctx).mint
        },
{
    if !ctx.legate.data.is_initialized {
        return Err(ErrorCode::LegateNotInitialized);
    }
    check_owner(&ctx.authority, &ctx.centurion.data)?;
    if !ctx.legate.data.is_whitelisted(&ctx.mint.key) {
        return Err(ErrorCode::UnsupportedTokenMint);
    }
    if ctx.centurion.data.find_testudo(&ctx.mint.key).is_some() {
        return Err(ErrorCode::MintAlreadyInList);
    }
    if ctx.centurion.data.testudos.len() >= ctx.legate.data.max_testudos_per_user as usize {
        return Err(ErrorCode::MaxTestudosReached);
    }
    ctx.centurion.data.testudos.push(
        TestudoData {
            token_mint: ctx.mint.key,
            testudo_pubkey: ctx.testudo,
            testudo_token_count: 0,
        },
    );
    ctx.centurion.data.last_accessed = now;
    Ok(())
}

/// The first reason for which a sub-vault of `vault` is not drained and
/// closed on the word of `authority`. The owner's word is enough.
pub open spec fn closing_denied(
    vault: &Account<Centurion>,
    authority: Signer,
    authority_ata: TokenAccount,
    registry: &Legate,
    testudo: Testudo,
    mint: Mint,
    treasury: Pubkey,
    treasury_ata: TokenAccount,
) -> Option<ErrorCode> {
    or_else(
        owner_denied(authority.key, &vault.data),
        or_else(
            treasury_denied(treasury, registry),
            or_else(
                testudo_denied(testudo, vault, mint.key),
                or_else(
                    holding_denied(authority_ata, authority.key, mint.key),
                    or_else(
                        holding_denied(treasury_ata, treasury, mint.key),
                        if fee_computable(testudo.amount, registry.percent_for_fees) {
                            None
                        } else {
                            Some(ErrorCode::ArithmeticOverflow)
                        },
                    ),
                ),
            ),
        ),
    )
}

/// What closing a sub-vault asks of the typed-asset service: what is left in
/// it goes out to the owner, the fee first, and then the holding account
/// ends. Where nothing is left, nothing is moved before the end.
pub open spec fn closing_plan(
    vault: Pubkey,
    authority: Signer,
    authority_ata: TokenAccount,
    rate_bps: u16,
    testudo: Testudo,
    mint: Mint,
    treasury_ata: TokenAccount,
) -> Seq<Movement> {
    let end = Movement::CloseAccount {
        account: testudo.key,
        destination: authority.key,
        authority: vault,
    };
    if testudo.amount > 0 {
        token_route(
            testudo.key,
            treasury_ata.key,
            authority_ata.key,
            mint.key,
            vault,
            mint.decimals,
            split_of(testudo.amount, rate_bps),
        ).push(end)
    } else {
        seq![end]
    }
}

/// Drains and closes a sub-vault of `vault` on the word of its owner, and
/// takes its line off the index.
pub fn close_sub_vault(
    vault: &mut Account<Centurion>,
    authority: &Signer,
    authority_ata: &TokenAccount,
    registry: &Legate,
    testudo: &Testudo,
    mint: &Mint,
    treasury: &Pubkey,
    treasury_ata: &TokenAccount,
    now: u64,
) -> (r: Result<Vec<Movement>, ErrorCode>)
    ensures
        r is Ok <==> closing_denied(
            old(vault),
            *authority,
            *authority_ata,
            registry,
            *testudo,
            *mint,
            *treasury,
            *treasury_ata,
        ) is None,
        r matches Err(e) ==> Some(e) == closing_denied(
            old(vault),
            *authority,
            *authority_ata,
            registry,
            *testudo,
            *mint,
            *treasury,
            *treasury_ata,
        ) && *final(vault) == *old(vault),
        r matches Ok(plan) ==> {
            &&& plan@ == closing_plan(
                old(vault).key,
                *authority,
                *authority_ata,
                registry.percent_for_fees,
                *testudo,
                *mint,
                *treasury_ata,
            )
            &&& final(vault).data.testudos@ == old(vault).data.testudos@.remove(
                line_of(old(vault).data.testudos@, mint.key),
            )
            &&& final(vault).data.testudos@.len() == old(vault).data.testudos@.len() - 1
            &&& final(vault).data.last_accessed == now
            &&& final(vault).data.same_header(&old(vault).data)
            &&& old(vault).data.wf() ==> final(vault).data.wf() && !final(vault).data.tracks(
                mint.key,
            )
            &&& final(vault).key == old(vault).key
            &&& final(vault).lamports == old(vault).lamports
        },
{
    check_owner(authority, &vault.data)?;
    check_treasury(treasury, registry)?;
    let line = check_testudo(testudo, vault, &mint.key)?;
    check_holding(authority_ata, &authority.key, &mint.key)?;
    check_holding(treasury_ata, treasury, &mint.key)?;
    let split = split_fee(testudo.amount, registry.percent_for_fees)?;
    let mut plan: Vec<Movement> = if testudo.amount > 0 {
        route_tokens(
            testudo.key,
            treasury_ata.key,
            authority_ata.key,
            mint.key,
            vault.key,
            mint.decimals,
            split,
        )
    } else {
        Vec::new()
    };
    plan.push(
        Movement::CloseAccount {
            account: testudo.key,
            destination: authority.key,
            authority: vault.key,
        },
    );
    proof {
        assert(plan@ =~= closing_plan(
            vault.key,
            *authority,
            *authority_ata,
            registry.percent_for_fees,
            *testudo,
            *mint,
            *treasury_ata,
        ));
        lemma_remove_line(vault.data.testudos@, mint.key, line as int);
    }
    vault.data.testudos.remove(line);
    vault.data.last_accessed = now;
    Ok(plan)
}

/// Taking the first line for an asset out of an index leaves the other lines
/// as they were; where no asset stood twice, none does afterwards, and the
/// asset is gone.
pub proof fn lemma_remove_line(index: Seq<TestudoData>, mint: Pubkey, i: int)
    requires
        is_first_line(index, mint, i),
    ensures
        line_of(index, mint) == i,
        index_unique(index) ==> index_unique(index.remove(i)) && !index_has(index.remove(i), mint),
{
    lemma_line_of(index, mint, i);
    let rest = index.remove(i);
    if index_unique(index) {
        assert forall|a: int, b: int| 0 <= a < b < rest.len() implies rest[a].token_mint
            != rest[b].token_mint by {
            let a0 = if a < i { a } else { a + 1 };
            let b0 = if b < i { b } else { b + 1 };
            assert(rest[a] == index[a0]);
            assert(rest[b] == index[b0]);
        }
        assert forall|k: int| 0 <= k < rest.len() implies rest[k].token_mint != mint by {
            let k0 = if k < i { k } else { k + 1 };
            assert(rest[k] == index[k0]);
        }
    }
}

/// The accounts of `process_close_testudo`.
#[derive(Clone, Debug, PartialEq, Eq)]
pub struct CloseTestudo {
    pub authority: Signer,
    /// The owner's own holding account for the asset: where what is left in
    /// the sub-vault goes.
    pub authority_ata: TokenAccount,
    pub centurion: Account<Centurion>,
    pub legate: Account<Legate>,
    pub testudo: Testudo,
    pub mint: Mint,
    pub treasury: Pubkey,
    /// The treasury's holding account for the asset.
    pub treasury_ata: TokenAccount,
}

/// The first reason for which a sub-vault is not drained and closed.
pub open spec fn close_testudo_denied(ctx: &CloseTestudo) -> Option<ErrorCode> {
    closing_denied(
        &ctx.centurion,
        ctx.authority,
        ctx.authority_ata,
        &ctx.legate.data,
        ctx.testudo,
        ctx.mint,
        ctx.treasury,
        ctx.treasury_ata,
    )
}

/// What closing a sub-vault asks of the typed-asset service.
pub open spec fn close_testudo_plan(ctx: &CloseTestudo) -> Seq<Movement> {
    closing_plan(
        ctx.centurion.key,
        ctx.authority,
        ctx.authority_ata,
        ctx.legate.data.percent_for_fees,
        ctx.testudo,
        ctx.mint,
        ctx.treasury_ata,
    )
}

/// Closes a sub-vault on the word of the owner. What it still holds is
/// drained to the owner first, less the fee, then the holding account ends
/// towards the owner, and its line leaves the vault's index.
pub fn process_close_testudo(ctx: &mut CloseTestudo, now: u64) -> (r: Result<
    Vec<Movement>,
    ErrorCode,
>)
    ensures
        r is Ok <==> close_testudo_denied(old(ctx)) is None,
        r matches Err(e) ==> Some(e) == close_testudo_denied(old(ctx)) && *final(ctx) == *old(ctx),
        r matches Ok(plan) ==> {
            &&& plan@ == close_testudo_plan(old(ctx))
            &&& final(ctx).centurion.data.testudos@ == old(ctx).centurion.data.testudos@.remove(
                line_of(old(ctx).centurion.data.testudos@, old(ctx).mint.key),
            )
            &&& final(ctx).centurion.data.testudos@.len() == old(ctx).centurion.data.testudos@.len()
                - 1
            &&& final(ctx).centurion.data.last_accessed == now
            &&& final(ctx).centurion.data.same_header(&old(ctx).centurion.data)
            &&& old(ctx).centurion.data.wf() ==> final(ctx).centurion.data.wf() && !final(ctx).centurion.data.tracks(old(ctx).mint.key)
            &&& final(ctx).centurion.key == old(ctx).centurion.key
            &&& final(ctx).centurion.lamports == old(ctx).centurion.lamports
            &&& *final(ctx) == (CloseTestudo { centurion: final(ctx).centurion, ..*old(ctx) })
        },
{
    let authority = ctx.authority;
    let authority_ata = ctx.authority_ata;
    let testudo = ctx.testudo;
    let mint = ctx.mint;
    let treasury = ctx.treasury;
    let treasury_ata = ctx.treasury_ata;
    close_sub_vault(
        &mut ctx.centurion,
        &authority,
        &authority_ata,
        &ctx.legate.data,
        &testudo,
        &mint,
        &treasury,
        &treasury_ata,
        now,
    )
}

/// The accounts of `process_delete_testudo`.
#[derive(Clone, Debug, PartialEq, Eq)]
pub struct DeleteTestudo {
    pub authority: Signer,
    /// The owner's own holding account for the asset: where what is left in
    /// the sub-vault goes.
    pub authority_ata: TokenAccount,
    pub centurion: Account<Centurion>,
    pub legate: Account<Legate>,
    pub testudo: Testudo,
    pub mint: Mint,
    pub treasury: Pubkey,
    /// The treasury's holding account for the asset.
    pub treasury_ata: TokenAccount,
}

/// The first reason for which a sub-vault is not deleted.
pub open spec fn delete_testudo_denied(ctx: &DeleteTestudo) -> Option<ErrorCode> {
    closing_denied(
        &ctx.centurion,
        ctx.authority,
        ctx.authority_ata,
        &ctx.legate.data,
        ctx.testudo,
        ctx.mint,
        ctx.treasury,
        ctx.treasury_ata,
    )
}

/// What deleting a sub-vault asks of the typed-asset service.
pub open spec fn delete_testudo_plan(ctx: &DeleteTestudo) -> Seq<Movement> {
    closing_plan(
        ctx.centurion.key,
        ctx.authority,
        ctx.authority_ata,
        ctx.legate.data.percent_for_fees,
        ctx.testudo,
        ctx.mint,
        ctx.treasury_ata,
    )
}

/// Deletes a sub-vault on the word of the owner: what it still holds is
/// drained to the owner first, less the fee, then the holding account ends
/// and its line leaves the vault's index. It does what closing does.
pub fn process_delete_testudo(ctx: &mut DeleteTestudo, now: u64) -> (r: Result<
    Vec<Movement>,
    ErrorCode,
>)
    ensures
        r is Ok <==> delete_testudo_denied(old(ctx)) is None,
        r matches Err(e) ==> Some(e) == delete_testudo_denied(old(ctx)) && *final(ctx) == *old(ctx),
        r matches Ok(plan) ==> {
            &&& plan@ == delete_testudo_plan(old(ctx))
            &&& final(ctx).centurion.data.testudos@ == old(ctx).centurion.data.testudos@.remove(
                line_of(old(ctx).centurion.data.testudos@, old(ctx).mint.key),
            )
            &&& final(ctx).centurion.data.testudos@.len() == old(ctx).centurion.data.testudos@.len()
                - 1
            &&& final(ctx).centurion.data.last_accessed == now
            &&& final(ctx).centurion.data.same_header(&old(ctx).centurion.data)
            &&& old(ctx).centurion.data.wf() ==> final(ctx).centurion.data.wf() && !final(ctx).centurion.data.tracks(old(ctx).mint.key)
            &&& final(ctx).centurion.key == old(ctx).centurion.key
            &&& final(ctx).centurion.lamports == old(ctx).centurion.lamports
            &&& *final(ctx) == (DeleteTestudo { centurion: final(ctx).centurion, ..*old(ctx) })
        },
{
    let authority = ctx.authority;
    let authority_ata = ctx.authority_ata;
    let testudo = ctx.testudo;
    let mint = ctx.mint;
    let treasury = ctx.treasury;
    let treasury_ata = ctx.treasury_ata;
    close_sub_vault(
        &mut ctx.centurion,
        &authority,
        &authority_ata,
        &ctx.legate.data,
        &testudo,
        &mint,
        &treasury,
        &treasury_ata,
        now,
    )
}

} // verus!
