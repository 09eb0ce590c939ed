//! Counting the kitties that an account owns, and how the count moves when
//! an owner is added or replaced.
use vstd::prelude::*;

use crate::types::AccountId;

verus! {

/// How many entries of `owners` are `a`: the number of kitties that `a` owns.
pub open spec fn owned(owners: Seq<AccountId>, a: AccountId) -> nat
    decreases owners.len(),
{
    if owners.len() == 0 {
        0
    } else {
        owned(owners.drop_last(), a) + if owners.last() == a {
            1nat
        } else {
            0nat
        }
    }
}

/// Appending an owner counts one more for that owner and changes no other count.
pub proof fn lemma_owned_push(owners: Seq<AccountId>, x: AccountId, a: AccountId)
    ensures
        owned(owners.push(x), a) == owned(owners, a) + if x == a {
            1nat
        } else {
            0nat
        },
{
    assert(owners.push(x).drop_last() =~= owners);
}

/// Replacing the owner at `i` moves one from the old owner's count to the new one's.
pub proof fn lemma_owned_update(owners: Seq<AccountId>, i: int, x: AccountId, a: AccountId)
    requires
        0 <= i < owners.len(),
    ensures
        owned(owners.update(i, x), a) + (if owners[i] == a {
            1nat
        } else {
            0nat
        }) == owned(owners, a) + if x == a {
            1nat
        } else {
            0nat
        },
    decreases owners.len(),
{
    if i == owners.len() - 1 {
        assert(owners.update(i, x).drop_last() =~= owners.drop_last());
    } else {
        lemma_owned_update(owners.drop_last(), i, x, a);
        assert(owners.update(i, x).drop_last() =~= owners.drop_last().update(i, x));
    }
}

/// Whoever stands at a position of `owners` owns at least one kitty.
pub proof fn lemma_owned_positive(owners: Seq<AccountId>, i: int)
    requires
        0 <= i < owners.len(),
    ensures
        owned(owners, owners[i]) >= 1,
    decreases owners.len(),
{
    if i < owners.len() - 1 {
        lemma_owned_positive(owners.drop_last(), i);
    }
}

/// `r` bonds and one more.
pub proof fn lemma_bonds_succ(r: int, n: int)
    ensures
        r * (n + 1) == r * n + r,
{
    assert(r * (n + 1) == r * n + r) by (nonlinear_arith);
}

/// At least one bond is at least one bond's worth.
pub proof fn lemma_bonds_at_least_one(r: int, n: int)
    requires
        r >= 0,
        n >= 1,
    ensures
        r * n >= r,
{
    assert(r * n >= r) by (nonlinear_arith)
        requires
            r >= 0,
            n >= 1,
    ;
}

} // verus!
