//! A ledger of uniquely numbered creatures: creation, breeding, transfer and
//! a marketplace, each creature backed by a stake reserved from its owner.

pub mod types;
pub mod genetics;
pub mod hashing;
pub mod currency;
pub mod pallet;
pub mod laws;

pub use crate::currency::{AccountData, Balances};
pub use crate::pallet::Pallet;
pub use crate::types::{
    AccountId, Balance, Config, CurrencyError, DispatchError, DispatchResult, Error, Event, Kitty, KittyIndex,
};
