//! Properties of the registry that hold across operations.
use vstd::prelude::*;

use crate::bonds::owned;
use crate::genome::{mixed_byte, random_dna, Entropy};
use crate::pallet::{breed_rel, buy_rel, create_rel, sale_rel, transfer_rel, Pallet};
use crate::types::{AccountId, Balance, Error, Event, KittyIndex};

verus! {

/// One call of an operation, with its arguments.
pub enum Call {
    Create { who: AccountId, entropy: Entropy },
    Transfer { who: AccountId, new_owner: AccountId, id: KittyIndex },
    Breed { who: AccountId, id1: KittyIndex, id2: KittyIndex, entropy: Entropy },
    Sale { who: AccountId, id: KittyIndex, price: Option<Balance> },
    Buy { who: AccountId, id: KittyIndex },
}

/// `t` and `r` are the store and the result after `c` ran on `s`.
pub open spec fn step(s: Pallet, t: Pallet, c: Call, r: Result<Event, Error>) -> bool {
    match c {
        Call::Create { who, entropy } => create_rel(s, t, who, entropy, r),
        Call::Transfer { who, new_owner, id } => transfer_rel(s, t, who, new_owner, id, r),
        Call::Breed { who, id1, id2, entropy } => breed_rel(s, t, who, id1, id2, entropy, r),
        Call::Sale { who, id, price } => sale_rel(s, t, who, id, price, r),
        Call::Buy { who, id } => buy_rel(s, t, who, id, r),
    }
}

/// Every operation keeps the kitties that existed, with an owner each: the
/// count never goes down, and a kitty that had an owner still has one.
pub proof fn lemma_ownership_total(
    s: Pallet,
    t: Pallet,
    c: Call,
    r: Result<Event, Error>,
    id: int,
)
    requires
        step(s, t, c, r),
        s.owner_of(id) is Some,
    ensures
        t.count() >= s.count(),
        t.owner_of(id) is Some,
{
}

/// An identifier that an operation issues (creation or breeding) lies above
/// every identifier issued before it, and the count moves just past it, so
/// every identifier issued afterwards lies above it too.
pub proof fn lemma_fresh_identifier(
    s: Pallet,
    t: Pallet,
    c: Call,
    owner: AccountId,
    id: KittyIndex,
)
    requires
        s.wf(),
        step(s, t, c, Ok::<Event, Error>(Event::KittyCreate(owner, id))),
    ensures
        forall|j: int| #[trigger] s.owner_of(j) is Some ==> j < id,
        s.owner_of(id as int) is None,
        t.owner_of(id as int) == Some(owner),
        t.count() == id + 1,
{
    s.lemma_wf();
}

/// In a consistent store each account's reserved balance is one bond for
/// each kitty that it owns.
pub proof fn lemma_bond_conservation(s: Pallet, a: AccountId)
    requires
        s.wf(),
    ensures
        s.ledger().reserved(a) == s.reserve_amount() * owned(s.owner_seq(), a),
{
    s.lemma_wf();
}

/// Breeding the same parents' genomes, for the same caller, under the same
/// entropy, yields the same child genome; each byte of it takes the bits of
/// the first parent where the selector has a one, of the second where it
/// has a zero.
pub proof fn lemma_breeding_deterministic(
    s1: Pallet,
    t1: Pallet,
    r1: Result<Event, Error>,
    s2: Pallet,
    t2: Pallet,
    r2: Result<Event, Error>,
    who: AccountId,
    id1: KittyIndex,
    id2: KittyIndex,
    e: Entropy,
)
    requires
        breed_rel(s1, t1, who, id1, id2, e, r1),
        breed_rel(s2, t2, who, id1, id2, e, r2),
        r1 is Ok,
        r2 is Ok,
        s1.dna(id1 as int) == s2.dna(id1 as int),
        s1.dna(id2 as int) == s2.dna(id2 as int),
    ensures
        t1.dna(s1.count() as int) == t2.dna(s2.count() as int),
        forall|i: int|
            0 <= i < 16 ==> #[trigger] t1.dna(s1.count() as int)[i] == mixed_byte(
                random_dna(who, e)[i],
                s1.dna(id1 as int)[i],
                s1.dna(id2 as int)[i],
            ),
{
}

/// After a successful purchase the kitty is no longer for sale.
pub proof fn lemma_listing_cleared_on_buy(
    s: Pallet,
    t: Pallet,
    who: AccountId,
    id: KittyIndex,
    r: Result<Event, Error>,
)
    requires
        s.wf(),
        buy_rel(s, t, who, id, r),
        r is Ok,
    ensures
        t.price_of(id as int) is None,
{
    s.lemma_wf();
}

/// An owner who tries to buy their own listed kitty is refused with
/// `CantBuyYourOwnKitty`, and the store, balances and owners included, is
/// left as it was.
pub proof fn lemma_self_purchase_rejected(
    s: Pallet,
    t: Pallet,
    who: AccountId,
    id: KittyIndex,
    r: Result<Event, Error>,
)
    requires
        buy_rel(s, t, who, id, r),
        s.owner_of(id as int) == Some(who),
        s.price_of(id as int) is Some,
    ensures
        r == Err::<Event, Error>(Error::CantBuyYourOwnKitty),
        t == s,
{
}

} // verus!
