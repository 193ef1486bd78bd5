use vstd::prelude::*;

verus! {

/// The number of a creature. Numbers are handed out from zero upwards.
pub type KittyIndex = u32;

/// The identity of an account.
pub type AccountId = u64;

/// An amount of currency.
pub type Balance = u64;

/// A creature: sixteen bytes of genetic material, fixed at creation.
#[derive(Clone, Copy, Debug, PartialEq, Eq)]
pub struct Kitty(pub [u8; 16]);

/// What the ledger is configured with.
#[derive(Clone, Copy, Debug, PartialEq, Eq, Structural)]
pub struct Config {
    /// The amount reserved from an owner for each creature held.
    pub stake_for_each_kitty: Balance,
}

/// A notification of a successful call.
#[derive(Clone, Copy, Debug, PartialEq, Eq, Structural)]
pub enum Event {
    /// A creature was created for the account, under the number.
    KittyCreate(AccountId, KittyIndex),
    /// The creature passed from the first account to the second.
    KittyTransfer(AccountId, AccountId, KittyIndex),
    /// The account set the creature's listing to the price, or removed it.
    Sell(AccountId, KittyIndex, Option<Balance>),
    /// The first account bought the creature from the second at the price.
    Bought(AccountId, AccountId, KittyIndex, Option<Balance>),
}

/// Why the ledger rejects a call.
#[derive(Clone, Copy, Debug, PartialEq, Eq, Structural)]
pub enum Error {
    /// The numbers are used up.
    KittiesCountOverflow,
    /// The caller does not own the creature, or there is no such creature.
    NotOwner,
    /// The two parents are one creature.
    SameParentIndex,
    /// A parent does not exist.
    InvalidKittyIndex,
    /// The creature is not listed.
    NotForSale,
    /// The buyer cannot spend more than the price and a stake together.
    NotEnoughForBuying,
    /// The account cannot cover a stake.
    NotEnoughForStaking,
    /// The buyer owns the creature already.
    BuyerIsOwner,
}

/// Why a movement of funds is refused.
#[derive(Clone, Copy, Debug, PartialEq, Eq, Structural)]
pub enum CurrencyError {
    /// The available balance is below the amount.
    InsufficientBalance,
    /// The payee would hold less than the existential minimum.
    ExistentialDeposit,
    /// The payer would be left below the existential minimum.
    KeepAlive,
    /// The payee's balance would not fit its type.
    Overflow,
}

/// The failure of a call: one of the ledger's own, or one of the currency's.
#[derive(Clone, Copy, Debug, PartialEq, Eq, Structural)]
pub enum DispatchError {
    /// The ledger rejected the call.
    Module(Error),
    /// The currency refused the payment.
    Currency(CurrencyError),
}

/// The result of a call.
pub type DispatchResult = Result<(), DispatchError>;

} // verus!
