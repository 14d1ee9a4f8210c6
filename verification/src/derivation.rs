//! The derivation scheme: where the registry, a vault and a sub-vault live.
//!
//! An address is derived from the seeds of its namespace and from the
//! identity of the program that owns the ledger. The seeds are hashed one
//! after the other, together with a disambiguation byte that is searched for
//! until the address falls outside the space of addresses that a key pair can
//! have. The same seeds always give the same address. Where no byte does,
//! the derivation fails: no address is made up in its place.

use vstd::prelude::*;
use crate::custom_accounts::centurion::Centurion;
use crate::pubkey::Pubkey;

verus! {

/// The seed of the registry's address.
pub const LEGATE_SEED: [u8; 6] = [108, 101, 103, 97, 116, 101];

/// The first seed of a vault's address.
pub const CENTURION_SEED: [u8; 9] = [99, 101, 110, 116, 117, 114, 105, 111, 110];

/// What an address is derived for.
#[derive(Clone, Copy, Debug, PartialEq, Eq)]
pub enum Namespace {
    /// The registry: there is one.
    Legate,
    /// The vault of an owner: there is one for each owner.
    Centurion { owner: Pubkey },
    /// The sub-vault of a vault for an asset: there is one for each pair.
    Testudo { centurion: Pubkey, mint: Pubkey },
}

impl Namespace {
    /// The seeds of the namespace, in the order in which they are hashed.
    pub open spec fn seeds(&self) -> Seq<Seq<u8>> {
        match self {
            Namespace::Legate => seq![LEGATE_SEED@],
            Namespace::Centurion { owner } => seq![CENTURION_SEED@, owner@],
            Namespace::Testudo { centurion, mint } => seq![centurion@, mint@],
        }
    }

    /// What is hashed of the namespace before the disambiguation byte: its
    /// seeds, one after the other.
    pub open spec fn preimage(&self) -> Seq<u8> {
        match self {
            Namespace::Legate => LEGATE_SEED@,
            Namespace::Centurion { owner } => CENTURION_SEED@ + owner@,
            Namespace::Testudo { centurion, mint } => centurion@ + mint@,
        }
    }

    /// The seeds of the namespace.
    pub fn to_seeds(&self) -> (r: Vec<Vec<u8>>)
        ensures
            r.deep_view() == self.seeds(),
    {
        let mut seeds: Vec<Vec<u8>> = Vec::new();
        match self {
            Namespace::Legate => {
                seeds.push(bytes_of(&LEGATE_SEED));
            },
            Namespace::Centurion { owner } => {
                seeds.push(bytes_of(&CENTURION_SEED));
                seeds.push(owner.to_vec());
            },
            Namespace::Testudo { centurion, mint } => {
                seeds.push(centurion.to_vec());
                seeds.push(mint.to_vec());
            },
        }
        assert(seeds.deep_view() =~~= self.seeds());
        seeds
    }
}

/// The bytes of an array, as a seed.
fn bytes_of<const N: usize>(bytes: &[u8; N]) -> (r: Vec<u8>)
    ensures
        r@ == bytes@,
{
    let mut out: Vec<u8> = Vec::new();
    let mut i: usize = 0;
    while i < N
        invariant
            i <= N,
            out@ == bytes@.subrange(0, i as int),
        decreases N - i,
    {
        out.push(bytes[i]);
        assert(out@ =~= bytes@.subrange(0, i as int + 1));
        i += 1;
    }
    assert(out@ =~= bytes@);
    out
}

/// What is hashed of two namespaces differs unless they are the same
/// namespace: the seeds of the registry, of a vault and of a sub-vault have
/// different lengths, and within one kind the seeds are the identities
/// themselves. So two addresses of this ledger come from one hash input only
/// where they are meant to be one address.
pub proof fn lemma_preimage_injective(a: Namespace, b: Namespace)
    requires
        a.preimage() == b.preimage(),
    ensures
        a == b,
{
    let pa = a.preimage();
    let pb = b.preimage();
    assert(pa.len() == pb.len());
    match (a, b) {
        (Namespace::Centurion { owner: x }, Namespace::Centurion { owner: y }) => {
            assert forall|i: int| 0 <= i < 32 implies x@[i] == y@[i] by {
                assert(pa[9 + i] == x@[i]);
                assert(pb[9 + i] == y@[i]);
            }
            assert(x.bytes =~= y.bytes);
        },
        (
            Namespace::Testudo { centurion: c, mint: m },
            Namespace::Testudo { centurion: d, mint: n },
        ) => {
            assert forall|i: int| 0 <= i < 32 implies c@[i] == d@[i] && m@[i] == n@[i] by {
                assert(pa[i] == c@[i]);
                assert(pb[i] == d@[i]);
                assert(pa[32 + i] == m@[i]);
                assert(pb[32 + i] == n@[i]);
            }
            assert(c.bytes =~= d.bytes);
            assert(m.bytes =~= n.bytes);
        },
        _ => {},
    }
}

/// What is hashed of a namespace is its seeds, one after the other.
pub proof fn lemma_preimage_is_seeds(namespace: Namespace)
    ensures
        namespace.preimage() == namespace.seeds().flatten(),
{
    let seeds = namespace.seeds();
    reveal_with_fuel(Seq::flatten, 3);
    if seeds.len() == 1 {
        assert(seeds.drop_first() =~= Seq::<Seq<u8>>::empty());
        assert(seeds.flatten() =~= seeds[0]);
    } else {
        assert(seeds.drop_first() =~= seq![seeds[1]]);
        assert(seeds.drop_first().drop_first() =~= Seq::<Seq<u8>>::empty());
        assert(seeds.flatten() =~= seeds[0] + seeds[1]);
    }
}

/// The address that the outside derivation finds for the seeds under the
/// program `program_id`, with its disambiguation byte; `None` where it finds
/// no address.
pub uninterp spec fn program_address(seeds: Seq<Seq<u8>>, program_id: Seq<u8>) -> Option<
    (Seq<u8>, u8),
>;

/// `Pubkey::try_find_program_address` of the ledger's own crate: the address
/// derived from the seeds under the program, and the disambiguation byte that
/// it was found with. The result depends on the seeds and on the program
/// alone. It is `None` where the search finds no byte, or where the seeds are
/// more or longer than the derivation takes.
#[verifier::external_body]
fn try_find_program_address(seeds: &Vec<Vec<u8>>, program_id: &Pubkey) -> (r: Option<(Pubkey, u8)>)
    ensures
        r matches Some((address, bump)) ==> program_address(seeds.deep_view(), program_id@) == Some(
            (address@, bump),
        ),
        r is None ==> program_address(seeds.deep_view(), program_id@) is None,
{
    let parts: Vec<&[u8]> = seeds.iter().map(|seed| seed.as_slice()).collect();
    let program = anchor_lang::prelude::Pubkey::new_from_array(program_id.bytes);
    anchor_lang::prelude::Pubkey::try_find_program_address(&parts, &program).map(
        |(address, bump)| (Pubkey { bytes: address.to_bytes() }, bump),
    )
}

/// Derives the address of a namespace under the program `program_id`. The
/// result is the address and its disambiguation byte, or `None` where the
/// derivation fails.
pub fn derive_address(namespace: &Namespace, program_id: &Pubkey) -> (r: Option<(Pubkey, u8)>)
    ensures
        r matches Some((address, bump)) ==> program_address(namespace.seeds(), program_id@) == Some(
            (address@, bump),
        ),
        r is None ==> program_address(namespace.seeds(), program_id@) is None,
{
    let seeds = namespace.to_seeds();
    try_find_program_address(&seeds, program_id)
}

/// The disambiguation byte of a derived address, where the derivation has
/// given the address `claimed`; `None` where it has given another one or
/// none.
pub fn bump_at(derived: Option<(Pubkey, u8)>, claimed: &Pubkey) -> (r: Option<u8>)
    ensures
        r == match derived {
            Some((address, bump)) => if address == *claimed {
                Some(bump)
            } else {
                None
            },
            None => None,
        },
{
    match derived {
        Some((address, bump)) => {
            if address == *claimed {
                Some(bump)
            } else {
                None
            }
        },
        None => None,
    }
}

/// Whether `claimed` is the address of the namespace under the program
/// `program_id`: if it is, the result is the disambiguation byte.
pub fn expect_address(namespace: &Namespace, program_id: &Pubkey, claimed: &Pubkey) -> (r: Option<
    u8,
>)
    ensures
        r matches Some(bump) ==> program_address(namespace.seeds(), program_id@) == Some(
            (claimed@, bump),
        ),
        r is None ==> !(program_address(namespace.seeds(), program_id@) matches Some((address, _))
            && address == claimed@),
{
    let derived = derive_address(namespace, program_id);
    proof {
        if let Some((address, _)) = derived {
            crate::pubkey::lemma_pubkey_eq_by_bytes(address, *claimed);
        }
    }
    bump_at(derived, claimed)
}

/// The seeds under which a vault signs the calls that are made for it: the
/// seeds of its address and its disambiguation byte. They are good for the
/// one operation for which they are made.
pub open spec fn signer_seeds(owner: Pubkey, bump: u8) -> Seq<Seq<u8>> {
    (Namespace::Centurion { owner }).seeds().push(seq![bump])
}

/// The right to sign as a vault: the owner from whose identity the vault's
/// address is derived, and the disambiguation byte of that address. It is
/// made for one operation and not stored.
#[derive(Clone, Copy, Debug, PartialEq, Eq)]
pub struct VaultSigner {
    pub owner: Pubkey,
    pub bump: u8,
}

/// The right to sign as `vault`.
pub open spec fn vault_signer_of(vault: &Centurion) -> VaultSigner {
    VaultSigner { owner: vault.authority, bump: vault.bump }
}

/// The right to sign as `vault`.
pub fn vault_signer(vault: &Centurion) -> (r: VaultSigner)
    ensures
        r == vault_signer_of(vault),
{
    VaultSigner { owner: vault.authority, bump: vault.bump }
}

impl VaultSigner {
    /// The seeds under which the vault signs.
    pub fn seeds(&self) -> (r: Vec<Vec<u8>>)
        ensures
            r.deep_view() == signer_seeds(self.owner, self.bump),
    {
        let namespace = Namespace::Centurion { owner: self.owner };
        let mut seeds = namespace.to_seeds();
        let mut last: Vec<u8> = Vec::new();
        last.push(self.bump);
        assert(last@ =~= seq![self.bump]);
        seeds.push(last);
        assert(seeds.deep_view() =~~= signer_seeds(self.owner, self.bump));
        seeds
    }
}

/// The seeds under which `vault` signs.
pub fn vault_signer_seeds(vault: &Centurion) -> (r: Vec<Vec<u8>>)
    ensures
        r.deep_view() == signer_seeds(vault.authority, vault.bump),
{
    vault_signer(vault).seeds()
}

} // verus!
