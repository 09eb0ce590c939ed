//! Plain data shared by the whole registry.
use vstd::prelude::*;

verus! {

/// Identifier of an account; authenticated by whoever calls into the registry.
pub type AccountId = u64;

/// Identifier of a kitty. Identifiers are issued from zero upwards.
pub type KittyIndex = u32;

/// An amount of currency.
pub type Balance = u128;

/// The largest identifier; the counter never reaches past it.
pub const MAX_KITTY_INDEX: u32 = 0xffff_ffff;

/// A kitty: its sixteen-byte genome.
#[derive(Clone, Copy, Debug, PartialEq, Eq)]
pub struct Kitty(pub [u8; 16]);

/// Configuration of the registry.
#[derive(Clone, Copy, Debug, PartialEq, Eq)]
pub struct Config {
    /// The bond reserved from an owner for each kitty that it holds.
    pub kitty_reserve: Balance,
}

/// What a successful operation reports.
#[derive(Clone, Copy, Debug, PartialEq, Eq, Structural)]
pub enum Event {
    /// A kitty was created (or bred) for an owner: `(owner, id)`.
    KittyCreate(AccountId, KittyIndex),
    /// A kitty changed hands: `(from, to, id)`.
    KittyTransfer(AccountId, AccountId, KittyIndex),
    /// A kitty was bought: `(buyer, id, price)`.
    KittySaleOut(AccountId, KittyIndex, Option<Balance>),
    /// A kitty was listed (or its listing withdrawn): `(owner, id, price)`.
    SaleKitty(AccountId, KittyIndex, Option<Balance>),
}

/// Why an operation was refused. A refused operation changes nothing.
#[derive(Clone, Copy, Debug, PartialEq, Eq, Structural)]
pub enum Error {
    /// No identifier is left to issue.
    KittiesCountOverflow,
    /// The caller does not own the kitty, or the kitty does not exist.
    NotOwner,
    /// Both parents of a breeding are the same kitty.
    SameParentIndex,
    /// A parent of a breeding does not exist.
    InvalidKittyIndex,
    /// The kitty is not listed with a price.
    PriceError,
    /// An account cannot afford a bond or a payment.
    MoneyNotEnough,
    /// The buyer already owns the kitty.
    CantBuyYourOwnKitty,
}

} // verus!
