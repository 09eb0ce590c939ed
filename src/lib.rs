//! A registry of non-fungible "kitty" tokens: minting, transfer, breeding,
//! listing for sale and purchase, with a per-token bond held in escrow.
//!
//! Every operation is a single atomic transition of a [`Pallet`] store: it
//! either succeeds and reports an [`Event`], or fails with an [`Error`] and
//! leaves the store exactly as it was.

pub mod types;
pub mod currency;
pub mod genome;
pub mod bonds;
pub mod pallet;
pub mod laws;

pub use types::{AccountId, Balance, Config, Error, Event, Kitty, KittyIndex};
pub use currency::{AccountData, Balances};
pub use genome::{mix_dna, random_value, Entropy};
pub use laws::Call;
pub use pallet::Pallet;
