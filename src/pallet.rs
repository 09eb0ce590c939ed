//! The registry's store and its five operations.
use vstd::prelude::*;

use crate::bonds::{lemma_bonds_at_least_one, lemma_bonds_succ, lemma_owned_positive, lemma_owned_push, lemma_owned_update, owned};
use crate::currency::Balances;
use crate::genome::{mix_dna, mixed_dna, random_dna, random_value, Entropy};
use crate::types::{AccountId, Balance, Config, Error, Event, Kitty, KittyIndex, MAX_KITTY_INDEX};

verus! {

/// The whole state of the registry: the kitties, their owners and sale
/// prices, and the currency ledger that holds the owners' bonds.
///
/// Kitties are never removed, so the kitties that exist are exactly those
/// with an identifier below the count.
pub struct Pallet {
    config: Config,
    kitties: Vec<Kitty>,
    owners: Vec<AccountId>,
    prices: Vec<Option<Balance>>,
    balances: Balances,
}

/// `t` holds one kitty more than `s`, with genome `dna`, owned by `who` and
/// not for sale; nothing else about the kitties changed.
pub open spec fn kitty_added(s: Pallet, t: Pallet, who: AccountId, dna: Seq<u8>) -> bool {
    &&& t.count() == s.count() + 1
    &&& t.kitty_seq().drop_last() == s.kitty_seq()
    &&& t.kitty_seq().last().0@ == dna
    &&& t.owner_seq() == s.owner_seq().push(who)
    &&& t.price_seq() == s.price_seq().push(None)
    &&& t.reserve_amount() == s.reserve_amount()
}

/// `l1` is `l0` with one bond of `amount` reserved from `who`.
pub open spec fn bond_taken(l0: Balances, l1: Balances, who: AccountId, amount: Balance) -> bool {
    &&& l1.free(who) == l0.free(who) - amount
    &&& l1.reserved(who) == l0.reserved(who) + amount
    &&& l1.same_except(&l0, who)
    &&& l1.spec_existential_deposit() == l0.spec_existential_deposit()
}

/// `l1` is `l0` with one bond of `amount` moved from `from` to `to`.
pub open spec fn bond_moved(
    l0: Balances,
    l1: Balances,
    from: AccountId,
    to: AccountId,
    amount: Balance,
) -> bool {
    &&& l1.spec_existential_deposit() == l0.spec_existential_deposit()
    &&& if from == to {
        &&& forall|a: AccountId| #[trigger] l1.free(a) == l0.free(a)
        &&& forall|a: AccountId| #[trigger] l1.reserved(a) == l0.reserved(a)
    } else {
        &&& l1.free(to) == l0.free(to) - amount
        &&& l1.reserved(to) == l0.reserved(to) + amount
        &&& l1.free(from) == l0.free(from) + amount
        &&& l1.reserved(from) == l0.reserved(from) - amount
        &&& l1.same_except2(&l0, from, to)
    }
}

/// `l1` is `l0` after `buyer` paid `price` to `seller` and the bond of
/// `amount` moved from `seller` to `buyer`.
pub open spec fn sold(
    l0: Balances,
    l1: Balances,
    buyer: AccountId,
    seller: AccountId,
    price: Balance,
    amount: Balance,
) -> bool {
    &&& l1.free(buyer) == l0.free(buyer) - price - amount
    &&& l1.reserved(buyer) == l0.reserved(buyer) + amount
    &&& l1.free(seller) == l0.free(seller) + price + amount
    &&& l1.reserved(seller) == l0.reserved(seller) - amount
    &&& l1.same_except2(&l0, buyer, seller)
    &&& l1.spec_existential_deposit() == l0.spec_existential_deposit()
}

/// What `create` does: `r` is its result and `t` the store after it.
pub open spec fn create_rel(
    s: Pallet,
    t: Pallet,
    who: AccountId,
    e: Entropy,
    r: Result<Event, Error>,
) -> bool {
    if s.count() >= MAX_KITTY_INDEX {
        r == Err::<Event, Error>(Error::KittiesCountOverflow) && t == s
    } else if s.ledger().free(who) < s.reserve_amount() {
        r == Err::<Event, Error>(Error::MoneyNotEnough) && t == s
    } else {
        &&& r == Ok::<Event, Error>(Event::KittyCreate(who, s.count() as KittyIndex))
        &&& kitty_added(s, t, who, random_dna(who, e))
        &&& bond_taken(s.ledger(), t.ledger(), who, s.reserve_amount())
    }
}

/// What `transfer` does: `r` is its result and `t` the store after it.
pub open spec fn transfer_rel(
    s: Pallet,
    t: Pallet,
    who: AccountId,
    new_owner: AccountId,
    id: KittyIndex,
    r: Result<Event, Error>,
) -> bool {
    if s.owner_of(id as int) != Some(who) {
        r == Err::<Event, Error>(Error::NotOwner) && t == s
    } else if s.ledger().free(new_owner) < s.reserve_amount() {
        r == Err::<Event, Error>(Error::MoneyNotEnough) && t == s
    } else {
        &&& r == Ok::<Event, Error>(Event::KittyTransfer(who, new_owner, id))
        &&& t.kitty_seq() == s.kitty_seq()
        &&& t.owner_seq() == s.owner_seq().update(id as int, new_owner)
        &&& t.price_seq() == s.price_seq()
        &&& t.reserve_amount() == s.reserve_amount()
        &&& bond_moved(s.ledger(), t.ledger(), who, new_owner, s.reserve_amount())
    }
}

/// What `breed` does: `r` is its result and `t` the store after it.
pub open spec fn breed_rel(
    s: Pallet,
    t: Pallet,
    who: AccountId,
    id1: KittyIndex,
    id2: KittyIndex,
    e: Entropy,
    r: Result<Event, Error>,
) -> bool {
    if id1 == id2 {
        r == Err::<Event, Error>(Error::SameParentIndex) && t == s
    } else if id1 >= s.count() || id2 >= s.count() {
        r == Err::<Event, Error>(Error::InvalidKittyIndex) && t == s
    } else if s.count() >= MAX_KITTY_INDEX {
        r == Err::<Event, Error>(Error::KittiesCountOverflow) && t == s
    } else if s.ledger().free(who) < s.reserve_amount() {
        r == Err::<Event, Error>(Error::MoneyNotEnough) && t == s
    } else {
        &&& r == Ok::<Event, Error>(Event::KittyCreate(who, s.count() as KittyIndex))
        &&& kitty_added(
            s,
            t,
            who,
            mixed_dna(random_dna(who, e), s.dna(id1 as int), s.dna(id2 as int)),
        )
        &&& bond_taken(s.ledger(), t.ledger(), who, s.reserve_amount())
    }
}

/// What `sale` does: `r` is its result and `t` the store after it.
pub open spec fn sale_rel(
    s: Pallet,
    t: Pallet,
    who: AccountId,
    id: KittyIndex,
    price: Option<Balance>,
    r: Result<Event, Error>,
) -> bool {
    if s.owner_of(id as int) != Some(who) {
        r == Err::<Event, Error>(Error::NotOwner) && t == s
    } else {
        &&& r == Ok::<Event, Error>(Event::SaleKitty(who, id, price))
        &&& t.kitty_seq() == s.kitty_seq()
        &&& t.owner_seq() == s.owner_seq()
        &&& t.price_seq() == s.price_seq().update(id as int, price)
        &&& t.reserve_amount() == s.reserve_amount()
        &&& t.ledger() == s.ledger()
    }
}

/// What `buy` does: `r` is its result and `t` the store after it.
pub open spec fn buy_rel(
    s: Pallet,
    t: Pallet,
    who: AccountId,
    id: KittyIndex,
    r: Result<Event, Error>,
) -> bool {
    match s.owner_of(id as int) {
        None => r == Err::<Event, Error>(Error::NotOwner) && t == s,
        Some(seller) => match s.price_of(id as int) {
            None => r == Err::<Event, Error>(Error::PriceError) && t == s,
            Some(price) => if who == seller {
                r == Err::<Event, Error>(Error::CantBuyYourOwnKitty) && t == s
            } else if !s.ledger().transfer_allowed(who, seller, price) || s.ledger().free(who)
                - price < s.reserve_amount() {
                r == Err::<Event, Error>(Error::MoneyNotEnough) && t == s
            } else {
                &&& r == Ok::<Event, Error>(Event::KittySaleOut(who, id, Some(price)))
                &&& t.kitty_seq() == s.kitty_seq()
                &&& t.owner_seq() == s.owner_seq().update(id as int, who)
                &&& t.price_seq() == s.price_seq().update(id as int, None)
                &&& t.reserve_amount() == s.reserve_amount()
                &&& sold(s.ledger(), t.ledger(), who, seller, price, s.reserve_amount())
            },
        },
    }
}

impl Pallet {
    /// How many kitties exist; also the next identifier to issue.
    pub open spec fn count(&self) -> nat {
        self.kitty_seq().len()
    }

    /// The kitties, by identifier.
    pub closed spec fn kitty_seq(&self) -> Seq<Kitty> {
        self.kitties@
    }

    /// The owners, by identifier.
    pub closed spec fn owner_seq(&self) -> Seq<AccountId> {
        self.owners@
    }

    /// The sale prices, by identifier.
    pub closed spec fn price_seq(&self) -> Seq<Option<Balance>> {
        self.prices@
    }

    /// The currency ledger.
    pub closed spec fn ledger(&self) -> Balances {
        self.balances
    }

    /// The bond reserved for each kitty held.
    pub closed spec fn reserve_amount(&self) -> Balance {
        self.config.kitty_reserve
    }

    /// The genome of kitty `id`.
    pub open spec fn dna(&self, id: int) -> Seq<u8> {
        self.kitty_seq()[id].0@
    }

    /// The owner of kitty `id`, or `None` where no such kitty exists.
    pub open spec fn owner_of(&self, id: int) -> Option<AccountId> {
        if 0 <= id < self.count() {
            Some(self.owner_seq()[id])
        } else {
            None
        }
    }

    /// The sale price of kitty `id`, or `None` where it is not for sale.
    pub open spec fn price_of(&self, id: int) -> Option<Balance> {
        if 0 <= id < self.count() {
            self.price_seq()[id]
        } else {
            None
        }
    }

    /// The store is consistent: one owner and one price slot per kitty, the
    /// count within the identifier range, and each account's reserved
    /// balance exactly one bond per kitty that it owns.
    pub closed spec fn wf(&self) -> bool {
        &&& self.owners@.len() == self.kitties@.len()
        &&& self.prices@.len() == self.kitties@.len()
        &&& self.kitties@.len() <= MAX_KITTY_INDEX
        &&& self.balances.wf()
        &&& forall|a: AccountId|
            #[trigger] self.balances.reserved(a) == self.config.kitty_reserve * owned(
                self.owners@,
                a,
            )
    }

    /// A consistent store stays within the identifier range and holds one
    /// bond per kitty owned.
    pub proof fn lemma_wf(&self)
        requires
            self.wf(),
        ensures
            self.count() <= MAX_KITTY_INDEX,
            self.owner_seq().len() == self.count(),
            self.price_seq().len() == self.count(),
            self.ledger().wf(),
            forall|a: AccountId|
                #[trigger] self.ledger().reserved(a) == self.reserve_amount() * owned(
                    self.owner_seq(),
                    a,
                ),
    {
    }

    /// An empty registry with the given configuration, over an empty ledger
    /// with the given existential deposit.
    pub fn new(config: Config, existential_deposit: Balance) -> (r: Pallet)
        ensures
            r.wf(),
            r.kitty_seq() == Seq::<Kitty>::empty(),
            r.owner_seq() == Seq::<AccountId>::empty(),
            r.price_seq() == Seq::<Option<Balance>>::empty(),
            r.reserve_amount() == config.kitty_reserve,
            r.ledger().spec_existential_deposit() == existential_deposit,
            forall|a: AccountId| #[trigger] r.ledger().free(a) == 0,
            forall|a: AccountId| #[trigger] r.ledger().reserved(a) == 0,
    {
        let r = Pallet {
            config,
            kitties: Vec::new(),
            owners: Vec::new(),
            prices: Vec::new(),
            balances: Balances::new(existential_deposit),
        };
        assert forall|a: AccountId| #[trigger] r.balances.reserved(a) == config.kitty_reserve * owned(
            r.owners@,
            a,
        ) by {
            assert(owned(r.owners@, a) == 0);
        }
        assert(r.kitties@ =~= Seq::<Kitty>::empty());
        assert(r.owners@ =~= Seq::<AccountId>::empty());
        assert(r.prices@ =~= Seq::<Option<Balance>>::empty());
        r
    }

    /// Issues the next identifier, or fails with `KittiesCountOverflow` when
    /// none is left.
    fn get_kitty_id(&self) -> (r: Result<KittyIndex, Error>)
        requires
            self.wf(),
        ensures
            self.count() >= MAX_KITTY_INDEX ==> r == Err::<KittyIndex, Error>(
                Error::KittiesCountOverflow,
            ),
            self.count() < MAX_KITTY_INDEX ==> r == Ok::<KittyIndex, Error>(
                self.count() as KittyIndex,
            ),
    {
        let n = self.kitties.len();
        if n >= MAX_KITTY_INDEX as usize {
            return Err(Error::KittiesCountOverflow);
        }
        Ok(n as KittyIndex)
    }

    /// Adds a kitty with genome `dna`, owned by `who`, after its bond has
    /// been reserved.
    fn insert_kitty(&mut self, who: AccountId, dna: [u8; 16])
        requires
            old(self).wf(),
            old(self).count() < MAX_KITTY_INDEX,
            old(self).ledger().free(who) >= old(self).reserve_amount(),
        ensures
            final(self).wf(),
            kitty_added(*old(self), *final(self), who, dna@),
            bond_taken(old(self).ledger(), final(self).ledger(), who, old(self).reserve_amount()),
    {
        let ghost s = *self;
        let res = self.balances.reserve(who, self.config.kitty_reserve);
        self.kitties.push(Kitty(dna));
        self.owners.push(who);
        self.prices.push(None);
        assert(self.kitties@.drop_last() =~= s.kitties@);
        assert forall|a: AccountId| #[trigger] self.balances.reserved(a) == self.config.kitty_reserve
            * owned(self.owners@, a) by {
            lemma_owned_push(s.owners@, who, a);
            lemma_bonds_succ(self.config.kitty_reserve as int, owned(s.owners@, a) as int);
            assert(s.balances.reserved(a) == s.config.kitty_reserve * owned(s.owners@, a));
        }
    }

    /// Creates a kitty for `who`, with a genome drawn from `e`, and reserves
    /// its bond from `who`.
    pub fn create(&mut self, who: AccountId, e: &Entropy) -> (r: Result<Event, Error>)
        requires
            old(self).wf(),
        ensures
            final(self).wf(),
            create_rel(*old(self), *final(self), who, *e, r),
    {
        let kitty_id = match self.get_kitty_id() {
            Ok(id) => id,
            Err(err) => return Err(err),
        };
        let dna = random_value(who, e);
        if self.balances.free_balance(who) < self.config.kitty_reserve {
            return Err(Error::MoneyNotEnough);
        }
        self.insert_kitty(who, dna);
        Ok(Event::KittyCreate(who, kitty_id))
    }
    /// Whether `who` owns kitty `id`.
    fn is_owner(&self, who: AccountId, id: KittyIndex) -> (r: bool)
        requires
            self.wf(),
        ensures
            r == (self.owner_of(id as int) == Some(who)),
    {
        (id as usize) < self.owners.len() && self.owners[id as usize] == who
    }

    /// Hands kitty `id` from `from` to `to`: the bond of `to` is reserved,
    /// the bond of `from` released, and the owner replaced.
    fn move_kitty(&mut self, id: KittyIndex, from: AccountId, to: AccountId)
        requires
            old(self).wf(),
            old(self).owner_of(id as int) == Some(from),
            old(self).ledger().free(to) >= old(self).reserve_amount(),
        ensures
            final(self).wf(),
            final(self).kitty_seq() == old(self).kitty_seq(),
            final(self).owner_seq() == old(self).owner_seq().update(id as int, to),
            final(self).price_seq() == old(self).price_seq(),
            final(self).reserve_amount() == old(self).reserve_amount(),
            bond_moved(old(self).ledger(), final(self).ledger(), from, to, old(self).reserve_amount()),
    {
        let ghost s = *self;
        let amount = self.config.kitty_reserve;
        let res = self.balances.reserve(to, amount);
        proof {
            lemma_owned_positive(s.owners@, id as int);
            lemma_bonds_at_least_one(amount as int, owned(s.owners@, from) as int);
            assert(s.balances.reserved(from) == amount * owned(s.owners@, from));
        }
        let left = self.balances.unreserve(from, amount);
        self.owners.set(id as usize, to);
        assert forall|a: AccountId| #[trigger] self.balances.reserved(a) == amount * owned(
            self.owners@,
            a,
        ) by {
            lemma_owned_update(s.owners@, id as int, to, a);
            assert(s.balances.reserved(a) == amount * owned(s.owners@, a));
            if a == to && a != from {
                lemma_bonds_succ(amount as int, owned(s.owners@, a) as int);
            } else if a == from && a != to {
                lemma_bonds_succ(amount as int, owned(self.owners@, a) as int);
            }
        }
    }

    /// Transfers kitty `kitty_id` from its owner `who` to `new_owner`, whose
    /// bond is reserved while the bond of `who` is released. A listing of
    /// the kitty is left in place: the new owner inherits the old price
    /// until they change or withdraw it.
    pub fn transfer(&mut self, who: AccountId, new_owner: AccountId, kitty_id: KittyIndex) -> (r:
        Result<Event, Error>)
        requires
            old(self).wf(),
        ensures
            final(self).wf(),
            transfer_rel(*old(self), *final(self), who, new_owner, kitty_id, r),
    {
        if !self.is_owner(who, kitty_id) {
            return Err(Error::NotOwner);
        }
        if self.balances.free_balance(new_owner) < self.config.kitty_reserve {
            return Err(Error::MoneyNotEnough);
        }
        self.move_kitty(kitty_id, who, new_owner);
        Ok(Event::KittyTransfer(who, new_owner, kitty_id))
    }

    /// Breeds a new kitty for `who` from two distinct existing kitties: each
    /// bit of its genome comes from the first parent where a selector drawn
    /// from `e` has a one, from the second where it has a zero. The parents
    /// need not belong to `who`. The bond of the new kitty is reserved from `who`.
    pub fn breed(
        &mut self,
        who: AccountId,
        kitty_id_1: KittyIndex,
        kitty_id_2: KittyIndex,
        e: &Entropy,
    ) -> (r: Result<Event, Error>)
        requires
            old(self).wf(),
        ensures
            final(self).wf(),
            breed_rel(*old(self), *final(self), who, kitty_id_1, kitty_id_2, *e, r),
    {
        if kitty_id_1 == kitty_id_2 {
            return Err(Error::SameParentIndex);
        }
        let kitty1 = match self.kitties(kitty_id_1) {
            Some(k) => k,
            None => return Err(Error::InvalidKittyIndex),
        };
        let kitty2 = match self.kitties(kitty_id_2) {
            Some(k) => k,
            None => return Err(Error::InvalidKittyIndex),
        };
        let kitty_id = match self.get_kitty_id() {
            Ok(id) => id,
            Err(err) => return Err(err),
        };
        let selector = random_value(who, e);
        let new_dna = mix_dna(&selector, &kitty1.0, &kitty2.0);
        if self.balances.free_balance(who) < self.config.kitty_reserve {
            return Err(Error::MoneyNotEnough);
        }
        self.insert_kitty(who, new_dna);
        Ok(Event::KittyCreate(who, kitty_id))
    }

    /// Lists kitty `kitty_id` of `who` for sale at `sale_price`; `None`
    /// withdraws the listing.
    pub fn sale(&mut self, who: AccountId, kitty_id: KittyIndex, sale_price: Option<Balance>) -> (r:
        Result<Event, Error>)
        requires
            old(self).wf(),
        ensures
            final(self).wf(),
            sale_rel(*old(self), *final(self), who, kitty_id, sale_price, r),
    {
        if !self.is_owner(who, kitty_id) {
            return Err(Error::NotOwner);
        }
        self.prices.set(kitty_id as usize, sale_price);
        Ok(Event::SaleKitty(who, kitty_id, sale_price))
    }

    /// Buys kitty `kitty_id` for `who` at its listed price: the price goes
    /// to the owner, the bond moves from the owner to `who`, `who` becomes
    /// the owner and the listing is removed.
    pub fn buy(&mut self, who: AccountId, kitty_id: KittyIndex) -> (r: Result<Event, Error>)
        requires
            old(self).wf(),
        ensures
            final(self).wf(),
            buy_rel(*old(self), *final(self), who, kitty_id, r),
    {
        let seller = match self.owner(kitty_id) {
            Some(o) => o,
            None => return Err(Error::NotOwner),
        };
        let price = match self.kitty_sale_price(kitty_id) {
            Some(p) => p,
            None => return Err(Error::PriceError),
        };
        if who == seller {
            return Err(Error::CantBuyYourOwnKitty);
        }
        if !self.balances.can_transfer(who, seller, price) {
            return Err(Error::MoneyNotEnough);
        }
        let free = self.balances.free_balance(who);
        if free < price || free - price < self.config.kitty_reserve {
            return Err(Error::MoneyNotEnough);
        }
        let ghost s = *self;
        let paid = self.balances.transfer(who, seller, price);
        assert forall|a: AccountId| #[trigger] self.balances.reserved(a) == self.config.kitty_reserve
            * owned(self.owners@, a) by {
            assert(s.balances.reserved(a) == s.config.kitty_reserve * owned(s.owners@, a));
        }
        self.move_kitty(kitty_id, seller, who);
        self.prices.set(kitty_id as usize, None);
        Ok(Event::KittySaleOut(who, kitty_id, Some(price)))
    }

    /// The number of kitties created so far; also the next identifier.
    pub fn kitties_count(&self) -> (r: KittyIndex)
        requires
            self.wf(),
        ensures
            r == self.count(),
    {
        self.kitties.len() as KittyIndex
    }

    /// Kitty `id`, or `None` where it does not exist.
    pub fn kitties(&self, id: KittyIndex) -> (r: Option<Kitty>)
        requires
            self.wf(),
        ensures
            r == (if id < self.count() {
                Some(self.kitty_seq()[id as int])
            } else {
                None
            }),
    {
        if (id as usize) < self.kitties.len() {
            Some(self.kitties[id as usize])
        } else {
            None
        }
    }

    /// The owner of kitty `id`, or `None` where it does not exist.
    pub fn owner(&self, id: KittyIndex) -> (r: Option<AccountId>)
        requires
            self.wf(),
        ensures
            r == self.owner_of(id as int),
    {
        if (id as usize) < self.owners.len() {
            Some(self.owners[id as usize])
        } else {
            None
        }
    }

    /// The sale price of kitty `id`, or `None` where it is not for sale.
    pub fn kitty_sale_price(&self, id: KittyIndex) -> (r: Option<Balance>)
        requires
            self.wf(),
        ensures
            r == self.price_of(id as int),
    {
        if (id as usize) < self.prices.len() {
            self.prices[id as usize]
        } else {
            None
        }
    }

    /// The bond reserved for each kitty held.
    pub fn kitty_reserve(&self) -> (r: Balance)
        ensures
            r == self.reserve_amount(),
    {
        self.config.kitty_reserve
    }

    /// The free balance of `who`.
    pub fn free_balance(&self, who: AccountId) -> (r: Balance)
        ensures
            r == self.ledger().free(who),
    {
        self.balances.free_balance(who)
    }

    /// The reserved balance of `who`.
    pub fn reserved_balance(&self, who: AccountId) -> (r: Balance)
        ensures
            r == self.ledger().reserved(who),
    {
        self.balances.reserved_balance(who)
    }

    /// Sets the free balance of `who`, as when endowing accounts before the
    /// registry is used. Reserved balances, and so the bonds, stay as they are.
    pub fn set_free_balance(&mut self, who: AccountId, free: Balance)
        requires
            old(self).wf(),
            old(self).ledger().reserved(who) + free <= u128::MAX,
        ensures
            final(self).wf(),
            final(self).ledger().free(who) == free,
            final(self).ledger().reserved(who) == old(self).ledger().reserved(who),
            final(self).ledger().same_except(&old(self).ledger(), who),
            final(self).ledger().spec_existential_deposit() == old(
                self,
            ).ledger().spec_existential_deposit(),
            final(self).kitty_seq() == old(self).kitty_seq(),
            final(self).owner_seq() == old(self).owner_seq(),
            final(self).price_seq() == old(self).price_seq(),
            final(self).reserve_amount() == old(self).reserve_amount(),
    {
        let ghost s = *self;
        self.balances.set_free_balance(who, free);
        assert forall|a: AccountId| #[trigger] self.balances.reserved(a) == self.config.kitty_reserve
            * owned(self.owners@, a) by {
            assert(s.balances.reserved(a) == s.config.kitty_reserve * owned(s.owners@, a));
        }
    }
}

} // verus!
