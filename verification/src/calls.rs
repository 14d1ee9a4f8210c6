//! What an operation asks the surrounding ledger to do on its behalf: the
//! movements of value that belong to it, in the order in which they are to be
//! carried out. All of them happen or none.

use vstd::prelude::*;
use crate::fees::FeeSplit;
use crate::pubkey::Pubkey;

verus! {

/// One request to the surrounding ledger or to the typed-asset service.
#[derive(Clone, Copy, Debug, PartialEq, Eq)]
pub enum Movement {
    /// Native currency from one account to another.
    Lamports { from: Pubkey, to: Pubkey, amount: u64 },
    /// A typed asset from one holding account to another, on the word of
    /// `authority`.
    Tokens { from: Pubkey, to: Pubkey, mint: Pubkey, authority: Pubkey, amount: u64, decimals: u8 },
    /// The end of a holding account: what it is worth goes to `destination`.
    CloseAccount { account: Pubkey, destination: Pubkey, authority: Pubkey },
}

/// Native currency on its way: the fee to the treasury first, where there is
/// one, then the rest to the destination.
pub open spec fn lamport_route(from: Pubkey, treasury: Pubkey, to: Pubkey, split: FeeSplit) -> Seq<
    Movement,
> {
    let rest = Movement::Lamports { from, to, amount: split.net };
    if split.fee > 0 {
        seq![Movement::Lamports { from, to: treasury, amount: split.fee }, rest]
    } else {
        seq![rest]
    }
}

/// A typed asset on its way: the fee to the treasury's holding account first,
/// where there is one, then the rest to the destination.
pub open spec fn token_route(
    from: Pubkey,
    treasury_ata: Pubkey,
    to: Pubkey,
    mint: Pubkey,
    authority: Pubkey,
    decimals: u8,
    split: FeeSplit,
) -> Seq<Movement> {
    let rest = Movement::Tokens { from, to, mint, authority, amount: split.net, decimals };
    if split.fee > 0 {
        seq![
            Movement::Tokens { from, to: treasury_ata, mint, authority, amount: split.fee, decimals },
            rest,
        ]
    } else {
        seq![rest]
    }
}

/// On every route the fee moves first: where there is a fee, it goes to the
/// treasury before the rest goes to the destination; where there is none, the
/// treasury is left out and the rest is all that moves.
pub proof fn lemma_fee_moves_first(
    from: Pubkey,
    treasury: Pubkey,
    treasury_ata: Pubkey,
    to: Pubkey,
    mint: Pubkey,
    authority: Pubkey,
    decimals: u8,
    split: FeeSplit,
)
    ensures
        split.fee > 0 ==> lamport_route(from, treasury, to, split) == seq![
            Movement::Lamports { from, to: treasury, amount: split.fee },
            Movement::Lamports { from, to, amount: split.net },
        ],
        split.fee == 0 ==> lamport_route(from, treasury, to, split) == seq![
            Movement::Lamports { from, to, amount: split.net },
        ],
        split.fee > 0 ==> token_route(from, treasury_ata, to, mint, authority, decimals, split)
            == seq![
            Movement::Tokens { from, to: treasury_ata, mint, authority, amount: split.fee, decimals },
            Movement::Tokens { from, to, mint, authority, amount: split.net, decimals },
        ],
        split.fee == 0 ==> token_route(from, treasury_ata, to, mint, authority, decimals, split)
            == seq![Movement::Tokens { from, to, mint, authority, amount: split.net, decimals }],
{
}

/// The movements of native currency for one parted amount.
pub fn route_lamports(from: Pubkey, treasury: Pubkey, to: Pubkey, split: FeeSplit) -> (r: Vec<
    Movement,
>)
    ensures
        r@ == lamport_route(from, treasury, to, split),
{
    let mut plan: Vec<Movement> = Vec::new();
    if split.fee > 0 {
        plan.push(Movement::Lamports { from, to: treasury, amount: split.fee });
    }
    plan.push(Movement::Lamports { from, to, amount: split.net });
    assert(plan@ =~= lamport_route(from, treasury, to, split));
    plan
}

/// The movements of a typed asset for one parted amount.
pub fn route_tokens(
    from: Pubkey,
    treasury_ata: Pubkey,
    to: Pubkey,
    mint: Pubkey,
    authority: Pubkey,
    decimals: u8,
    split: FeeSplit,
) -> (r: Vec<Movement>)
    ensures
        r@ == token_route(from, treasury_ata, to, mint, authority, decimals, split),
{
    let mut plan: Vec<Movement> = Vec::new();
    if split.fee > 0 {
        plan.push(
            Movement::Tokens { from, to: treasury_ata, mint, authority, amount: split.fee, decimals },
        );
    }
    plan.push(Movement::Tokens { from, to, mint, authority, amount: split.net, decimals });
    assert(plan@ =~= token_route(from, treasury_ata, to, mint, authority, decimals, split));
    plan
}

} // verus!
