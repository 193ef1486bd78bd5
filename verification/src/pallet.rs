use vstd::prelude::*;
use crate::currency::{account_in, pay, payment, AccountData, Balances};
use crate::genetics::{crossover, crossover_spec};
use crate::hashing::{blake2_128_digest, payload_encoding, random_value};
use crate::laws::{
    lemma_create_keeps_stake_backed, lemma_empty_is_stake_backed, lemma_free_purchase_keeps_stake_backed,
    lemma_transfer_keeps_stake_backed, lemma_transfer_moves_one_stake, stake_backed,
};
use crate::types::{AccountId, Balance, Config, DispatchError, DispatchResult, Error, Event, Kitty, KittyIndex};

verus! {

/// The ledger: the creatures, their owners and listings, the balances of the
/// accounts, and the notifications of the calls that succeeded.
pub struct Pallet {
    pub config: Config,
    /// The entropy of the current block.
    pub random_seed: [u8; 32],
    /// The place of the current call in its block.
    pub extrinsic_index: Option<u32>,
    /// The creatures, each at the place of its number.
    pub kitties: Vec<Kitty>,
    /// The owner of each creature.
    pub owners: Vec<AccountId>,
    /// The price at which each creature is listed, if it is.
    pub prices: Vec<Option<Balance>>,
    pub balances: Balances,
    pub events: Vec<Event>,
}

/// The balances once one stake has been reserved from `to` and then one
/// released to `from`.
pub open spec fn stake_moved(
    accounts: Map<AccountId, AccountData>,
    from: AccountId,
    to: AccountId,
    stake: Balance,
) -> Map<AccountId, AccountData> {
    let reserved = accounts.insert(to, account_in(accounts, to).reserved_by(stake));
    reserved.insert(from, account_in(reserved, from).unreserved_by(stake))
}

/// What a purchase does to the buyer's and the seller's accounts: the buyer
/// reserves a stake, the seller is released one, the price is paid, and the
/// stake moves once more with the creature. It fails where the buyer cannot
/// cover a stake, at either time, or the payment is refused.
pub open spec fn settlement(
    buyer: AccountData,
    seller: AccountData,
    price: Balance,
    stake: Balance,
    minimum: Balance,
) -> Result<(AccountData, AccountData), DispatchError> {
    if buyer.free < stake {
        Err(DispatchError::Module(Error::NotEnoughForStaking))
    } else {
        match payment(buyer.reserved_by(stake), seller.unreserved_by(stake), price, minimum) {
            Err(e) => Err(DispatchError::Currency(e)),
            Ok((paid, received)) => if paid.free < stake {
                Err(DispatchError::Module(Error::NotEnoughForStaking))
            } else {
                Ok((paid.reserved_by(stake), received.unreserved_by(stake)))
            },
        }
    }
}

/// Computes what a purchase does to the two accounts, writing nothing.
pub fn settle(buyer: AccountData, seller: AccountData, price: Balance, stake: Balance, minimum: Balance) -> (r:
    Result<(AccountData, AccountData), DispatchError>)
    requires
        buyer.wf(),
        seller.wf(),
    ensures
        r == settlement(buyer, seller, price, stake, minimum),
        r is Ok ==> r->Ok_0.0.wf() && r->Ok_0.1.wf(),
{
    let staked = match buyer.reserve(stake) {
        Some(a) => a,
        None => { return Err(DispatchError::Module(Error::NotEnoughForStaking)); },
    };
    let released = seller.unreserve(stake);
    match pay(staked, released, price, minimum) {
        Err(e) => Err(DispatchError::Currency(e)),
        Ok((paid, received)) => match paid.reserve(stake) {
            None => Err(DispatchError::Module(Error::NotEnoughForStaking)),
            Some(restaked) => Ok((restaked, received.unreserve(stake))),
        },
    }
}

impl Pallet {
    /// Each creature has its owner and its listing, the numbers fit a
    /// `KittyIndex`, and the balances are in order.
    pub open spec fn wf(&self) -> bool {
        &&& self.kitties@.len() == self.owners@.len()
        &&& self.kitties@.len() == self.prices@.len()
        &&& self.kitties@.len() <= u32::MAX
        &&& self.balances.wf()
    }

    /// How many creatures were ever created: the next number to hand out.
    pub open spec fn count(&self) -> nat {
        self.kitties@.len()
    }

    /// The owner of a creature, where it exists.
    pub open spec fn owner_of(&self, kitty_id: KittyIndex) -> Option<AccountId> {
        if kitty_id < self.owners@.len() {
            Some(self.owners@[kitty_id as int])
        } else {
            None
        }
    }

    /// The price at which a creature is listed, where it exists and is.
    pub open spec fn price_of(&self, kitty_id: KittyIndex) -> Option<Balance> {
        if kitty_id < self.prices@.len() {
            self.prices@[kitty_id as int]
        } else {
            None
        }
    }

    /// What `who` can spend.
    pub open spec fn free_of(&self, who: AccountId) -> Balance {
        self.balances.account(who).free
    }

    /// The stake of one creature.
    pub open spec fn stake(&self) -> Balance {
        self.config.stake_for_each_kitty
    }

    /// The configuration and the block's context are those of `pre`.
    pub open spec fn same_context(&self, pre: &Pallet) -> bool {
        &&& self.config == pre.config
        &&& self.random_seed == pre.random_seed
        &&& self.extrinsic_index == pre.extrinsic_index
        &&& self.balances.existential_deposit == pre.balances.existential_deposit
    }

    /// `self` is `pre` with one more creature of payload `dna`, owned by
    /// `who`, unlisted, with one stake reserved from `who` and the creation
    /// notified.
    pub open spec fn created_from(&self, pre: &Pallet, who: AccountId, dna: Seq<u8>) -> bool {
        &&& self.same_context(pre)
        &&& self.kitties@.len() == pre.kitties@.len() + 1
        &&& self.kitties@.drop_last() == pre.kitties@
        &&& self.kitties@.last().0@ == dna
        &&& self.owners@ == pre.owners@.push(who)
        &&& self.prices@ == pre.prices@.push(None)
        &&& self.balances@ == pre.balances@.insert(who, pre.balances.account(who).reserved_by(pre.stake()))
        &&& self.events@ == pre.events@.push(Event::KittyCreate(who, pre.count() as u32))
    }

    /// What a creation with payload `dna` comes to.
    pub open spec fn create_outcome(&self, pre: &Pallet, who: AccountId, dna: Seq<u8>, r: DispatchResult) -> bool {
        if pre.count() == u32::MAX {
            r == Err::<(), DispatchError>(DispatchError::Module(Error::KittiesCountOverflow)) && *self == *pre
        } else if pre.free_of(who) < pre.stake() {
            r == Err::<(), DispatchError>(DispatchError::Module(Error::NotEnoughForStaking)) && *self == *pre
        } else {
            r == Ok::<(), DispatchError>(()) && self.created_from(pre, who, dna)
        }
    }

    /// What a breeding under `selector` comes to.
    pub open spec fn breed_outcome(
        &self,
        pre: &Pallet,
        who: AccountId,
        kitty_id_1: KittyIndex,
        kitty_id_2: KittyIndex,
        selector: Seq<u8>,
        r: DispatchResult,
    ) -> bool {
        if kitty_id_1 == kitty_id_2 {
            r == Err::<(), DispatchError>(DispatchError::Module(Error::SameParentIndex)) && *self == *pre
        } else if kitty_id_1 >= pre.count() || kitty_id_2 >= pre.count() {
            r == Err::<(), DispatchError>(DispatchError::Module(Error::InvalidKittyIndex)) && *self == *pre
        } else {
            self.create_outcome(
                pre,
                who,
                crossover_spec(selector, pre.kitties@[kitty_id_1 as int].0@, pre.kitties@[kitty_id_2 as int].0@),
                r,
            )
        }
    }

    /// `self` is `pre` with the creature passed from `from` to `to`, one
    /// stake reserved from `to` and then one released to `from`, and the
    /// transfer notified.
    pub open spec fn transferred_from(
        &self,
        pre: &Pallet,
        from: AccountId,
        to: AccountId,
        kitty_id: KittyIndex,
    ) -> bool {
        &&& self.same_context(pre)
        &&& self.kitties@ == pre.kitties@
        &&& self.owners@ == pre.owners@.update(kitty_id as int, to)
        &&& self.prices@ == pre.prices@
        &&& self.balances@ == stake_moved(pre.balances@, from, to, pre.stake())
        &&& self.events@ == pre.events@.push(Event::KittyTransfer(from, to, kitty_id))
    }

    /// Between `pre` and `self` exactly one stake has moved: `to` has one
    /// more reserved and as much less to spend, `from` has one less reserved
    /// and as much more to spend, and no other account has changed.
    pub open spec fn one_stake_moved(&self, pre: &Pallet, from: AccountId, to: AccountId) -> bool {
        &&& self.balances.account(to).reserved == pre.balances.account(to).reserved + pre.stake()
        &&& self.balances.account(to).free == pre.balances.account(to).free - pre.stake()
        &&& self.balances.account(from).reserved == pre.balances.account(from).reserved - pre.stake()
        &&& self.balances.account(from).free == pre.balances.account(from).free + pre.stake()
        &&& forall|other: AccountId|
            other != from && other != to ==> #[trigger] self.balances.account(other) == pre.balances.account(
                other,
            )
    }

    /// What moving an existing creature from `from` to `to` comes to.
    pub open spec fn transfer_outcome(
        &self,
        pre: &Pallet,
        from: AccountId,
        to: AccountId,
        kitty_id: KittyIndex,
        r: DispatchResult,
    ) -> bool {
        if pre.free_of(to) < pre.stake() {
            r == Err::<(), DispatchError>(DispatchError::Module(Error::NotEnoughForStaking)) && *self == *pre
        } else {
            r == Ok::<(), DispatchError>(()) && self.transferred_from(pre, from, to, kitty_id)
        }
    }

    /// `self` is `pre` with the creature sold by `seller` to `buyer`: the two
    /// accounts settled as `accounts` says, the listing removed, and the
    /// purchase notified, by the one notification of the call.
    pub open spec fn bought_from(
        &self,
        pre: &Pallet,
        buyer: AccountId,
        seller: AccountId,
        kitty_id: KittyIndex,
        price: Balance,
        accounts: (AccountData, AccountData),
    ) -> bool {
        &&& self.same_context(pre)
        &&& self.kitties@ == pre.kitties@
        &&& self.owners@ == pre.owners@.update(kitty_id as int, buyer)
        &&& self.prices@ == pre.prices@.update(kitty_id as int, None)
        &&& self.balances@ == pre.balances@.insert(buyer, accounts.0).insert(seller, accounts.1)
        &&& self.events@ == pre.events@.push(Event::Bought(buyer, seller, kitty_id, Some(price)))
    }

    /// What a purchase comes to. The checks come in this order: the creature
    /// exists, `who` is not its owner, it is listed, and `who` can spend more
    /// than the price and a stake together. Then the two accounts are
    /// settled; where that fails, so does the purchase.
    pub open spec fn buy_outcome(&self, pre: &Pallet, who: AccountId, kitty_id: KittyIndex, r: DispatchResult) -> bool {
        match pre.owner_of(kitty_id) {
            None => r == Err::<(), DispatchError>(DispatchError::Module(Error::NotOwner)) && *self == *pre,
            Some(owner) => if owner == who {
                r == Err::<(), DispatchError>(DispatchError::Module(Error::BuyerIsOwner)) && *self == *pre
            } else {
                match pre.price_of(kitty_id) {
                    None => r == Err::<(), DispatchError>(DispatchError::Module(Error::NotForSale)) && *self
                        == *pre,
                    Some(price) => if pre.free_of(who) <= price + pre.stake() {
                        r == Err::<(), DispatchError>(DispatchError::Module(Error::NotEnoughForBuying)) && *self
                            == *pre
                    } else {
                        match settlement(
                            pre.balances.account(who),
                            pre.balances.account(owner),
                            price,
                            pre.stake(),
                            pre.balances.existential_deposit,
                        ) {
                            Err(e) => r == Err::<(), DispatchError>(e) && *self == *pre,
                            Ok(accounts) => r == Ok::<(), DispatchError>(()) && self.bought_from(
                                pre,
                                who,
                                owner,
                                kitty_id,
                                price,
                                accounts,
                            ),
                        }
                    },
                }
            },
        }
    }

    /// An empty ledger: no creature, no balance, no notification.
    pub fn new(config: Config, existential_deposit: Balance) -> (r: Pallet)
        ensures
            r.wf(),
            r.config == config,
            r.balances.existential_deposit == existential_deposit,
            r.random_seed@ == Seq::new(32, |i: int| 0u8),
            r.extrinsic_index == None::<u32>,
            r.count() == 0,
            r.owners@.len() == 0,
            r.prices@.len() == 0,
            r.events@.len() == 0,
            r.balances@ == Map::<AccountId, AccountData>::empty(),
            stake_backed(&r),
    {
        let r = Pallet {
            config,
            random_seed: [0u8; 32],
            extrinsic_index: None,
            kitties: Vec::new(),
            owners: Vec::new(),
            prices: Vec::new(),
            balances: Balances::new(existential_deposit),
            events: Vec::new(),
        };
        proof {
            assert(r.random_seed@ =~= Seq::new(32, |i: int| 0u8));
            lemma_empty_is_stake_backed(&r);
        }
        r
    }

    /// Sets the entropy of the block and the place of the next call in it.
    pub fn set_block_context(&mut self, random_seed: [u8; 32], extrinsic_index: Option<u32>)
        ensures
            final(self).random_seed == random_seed,
            final(self).extrinsic_index == extrinsic_index,
            final(self).config == old(self).config,
            final(self).kitties == old(self).kitties,
            final(self).owners == old(self).owners,
            final(self).prices == old(self).prices,
            final(self).balances == old(self).balances,
            final(self).events == old(self).events,
    {
        self.random_seed = random_seed;
        self.extrinsic_index = extrinsic_index;
    }

    /// How many creatures were ever created.
    pub fn kitties_count(&self) -> (r: KittyIndex)
        requires
            self.wf(),
        ensures
            r == self.count(),
    {
        self.kitties.len() as u32
    }

    /// The creature of a number, if there is one.
    pub fn kitties(&self, kitty_id: KittyIndex) -> (r: Option<Kitty>)
        requires
            self.wf(),
        ensures
            r == if kitty_id < self.count() {
                Some(self.kitties@[kitty_id as int])
            } else {
                None
            },
    {
        if (kitty_id as usize) < self.kitties.len() {
            Some(self.kitties[kitty_id as usize])
        } else {
            None
        }
    }

    /// The owner of a creature, if it exists.
    pub fn owner(&self, kitty_id: KittyIndex) -> (r: Option<AccountId>)
        requires
            self.wf(),
        ensures
            r == self.owner_of(kitty_id),
    {
        if (kitty_id as usize) < self.owners.len() {
            Some(self.owners[kitty_id as usize])
        } else {
            None
        }
    }

    /// The price at which a creature is listed, if it is.
    pub fn kitties_price(&self, kitty_id: KittyIndex) -> (r: Option<Balance>)
        requires
            self.wf(),
        ensures
            r == self.price_of(kitty_id),
    {
        if (kitty_id as usize) < self.prices.len() {
            self.prices[kitty_id as usize]
        } else {
            None
        }
    }

    /// The number that the next creature will get: the count, unless the
    /// numbers are used up.
    pub fn next_id(&self) -> (r: Result<KittyIndex, Error>)
        requires
            self.wf(),
        ensures
            r == if self.count() == u32::MAX {
                Err::<KittyIndex, Error>(Error::KittiesCountOverflow)
            } else {
                Ok::<KittyIndex, Error>(self.count() as u32)
            },
    {
        let count = self.kitties.len();
        if count >= 0xffff_ffff {
            Err(Error::KittiesCountOverflow)
        } else {
            Ok(count as u32)
        }
    }

    /// Stores a creature under the next number, with its owner and without a
    /// listing. The stake is the caller's to reserve first.
    fn allocate(&mut self, kitty_id: KittyIndex, kitty: Kitty, owner: AccountId)
        requires
            old(self).wf(),
            old(self).count() < u32::MAX,
            kitty_id == old(self).count(),
        ensures
            final(self).wf(),
            final(self).same_context(old(self)),
            final(self).kitties@ == old(self).kitties@.push(kitty),
            final(self).owners@ == old(self).owners@.push(owner),
            final(self).prices@ == old(self).prices@.push(None),
            final(self).balances == old(self).balances,
            final(self).events == old(self).events,
    {
        self.kitties.push(kitty);
        self.owners.push(owner);
        self.prices.push(None);
    }

    /// Creates a creature of payload `dna` for `who`, against one stake.
    /// Fails, changing nothing, where the numbers are used up or `who` cannot
    /// cover the stake.
    pub fn create_with_dna(&mut self, who: AccountId, dna: [u8; 16]) -> (r: DispatchResult)
        requires
            old(self).wf(),
        ensures
            final(self).wf(),
            final(self).create_outcome(old(self), who, dna@, r),
            r is Ok ==> final(self).count() == old(self).count() + 1 && final(self).owner_of(
                old(self).count() as u32,
            ) == Some(who),
            r is Err ==> *final(self) == *old(self),
            stake_backed(old(self)) ==> stake_backed(final(self)),
    {
        let kitty_id = match self.next_id() {
            Ok(kitty_id) => kitty_id,
            Err(e) => { return Err(DispatchError::Module(e)); },
        };
        let stake = self.config.stake_for_each_kitty;
        if self.balances.reserve(who, stake).is_err() {
            return Err(DispatchError::Module(Error::NotEnoughForStaking));
        }
        self.allocate(kitty_id, Kitty(dna), who);
        self.events.push(Event::KittyCreate(who, kitty_id));
        let r = Ok(());
        proof {
            assert(self.kitties@.drop_last() =~= old(self).kitties@);
            if stake_backed(old(self)) {
                lemma_create_keeps_stake_backed(old(self), self, who, dna@, r);
            }
        }
        r
    }

    /// Creates a creature for `who` whose payload is derived from the
    /// block's entropy, the caller and the call's place in the block.
    pub fn create(&mut self, who: AccountId) -> (r: DispatchResult)
        requires
            old(self).wf(),
        ensures
            final(self).wf(),
            final(self).create_outcome(
                old(self),
                who,
                blake2_128_digest(payload_encoding(old(self).random_seed@, who, old(self).extrinsic_index)),
                r,
            ),
            r is Ok ==> final(self).count() == old(self).count() + 1 && final(self).owner_of(
                old(self).count() as u32,
            ) == Some(who),
            r is Err ==> *final(self) == *old(self),
            stake_backed(old(self)) ==> stake_backed(final(self)),
    {
        let dna = random_value(&self.random_seed, who, self.extrinsic_index);
        self.create_with_dna(who, dna)
    }

    /// Breeds a creature for `who` from two different existing ones: its
    /// payload is theirs crossed over under `selector`.
    pub fn breed_with_selector(
        &mut self,
        who: AccountId,
        kitty_id_1: KittyIndex,
        kitty_id_2: KittyIndex,
        selector: [u8; 16],
    ) -> (r: DispatchResult)
        requires
            old(self).wf(),
        ensures
            final(self).wf(),
            final(self).breed_outcome(old(self), who, kitty_id_1, kitty_id_2, selector@, r),
            kitty_id_1 == kitty_id_2 ==> r == Err::<(), DispatchError>(
                DispatchError::Module(Error::SameParentIndex),
            ),
            kitty_id_1 != kitty_id_2 && (kitty_id_1 >= old(self).count() || kitty_id_2 >= old(self).count()) ==> r
                == Err::<(), DispatchError>(DispatchError::Module(Error::InvalidKittyIndex)),
            r is Ok ==> final(self).count() == old(self).count() + 1 && final(self).owner_of(
                old(self).count() as u32,
            ) == Some(who),
            r is Err ==> *final(self) == *old(self),
            stake_backed(old(self)) ==> stake_backed(final(self)),
    {
        if kitty_id_1 == kitty_id_2 {
            return Err(DispatchError::Module(Error::SameParentIndex));
        }
        let kitty1 = match self.kitties(kitty_id_1) {
            Some(kitty) => kitty,
            None => { return Err(DispatchError::Module(Error::InvalidKittyIndex)); },
        };
        let kitty2 = match self.kitties(kitty_id_2) {
            Some(kitty) => kitty,
            None => { return Err(DispatchError::Module(Error::InvalidKittyIndex)); },
        };
        let new_dna = crossover(&selector, &kitty1.0, &kitty2.0);
        self.create_with_dna(who, new_dna)
    }

    /// Breeds a creature for `who` from two different existing ones, under a
    /// selector derived from the block's entropy, the caller and the call's
    /// place in the block.
    pub fn breed(&mut self, who: AccountId, kitty_id_1: KittyIndex, kitty_id_2: KittyIndex) -> (r: DispatchResult)
        requires
            old(self).wf(),
        ensures
            final(self).wf(),
            final(self).breed_outcome(
                old(self),
                who,
                kitty_id_1,
                kitty_id_2,
                blake2_128_digest(payload_encoding(old(self).random_seed@, who, old(self).extrinsic_index)),
                r,
            ),
            kitty_id_1 == kitty_id_2 ==> r == Err::<(), DispatchError>(
                DispatchError::Module(Error::SameParentIndex),
            ),
            kitty_id_1 != kitty_id_2 && (kitty_id_1 >= old(self).count() || kitty_id_2 >= old(self).count()) ==> r
                == Err::<(), DispatchError>(DispatchError::Module(Error::InvalidKittyIndex)),
            r is Ok ==> final(self).count() == old(self).count() + 1 && final(self).owner_of(
                old(self).count() as u32,
            ) == Some(who),
            r is Err ==> *final(self) == *old(self),
            stake_backed(old(self)) ==> stake_backed(final(self)),
    {
        let selector = random_value(&self.random_seed, who, self.extrinsic_index);
        self.breed_with_selector(who, kitty_id_1, kitty_id_2, selector)
    }

    /// Moves an existing creature and its stake from `from` to `to`: reserves
    /// a stake from `to`, releases one to `from`, and makes `to` the owner.
    /// Fails, changing nothing, exactly where `to` cannot cover the stake.
    /// Who may ask for this is for the caller to see to.
    pub fn transfer_from(&mut self, from: AccountId, to: AccountId, kitty_id: KittyIndex) -> (r: DispatchResult)
        requires
            old(self).wf(),
            kitty_id < old(self).count(),
        ensures
            final(self).wf(),
            final(self).transfer_outcome(old(self), from, to, kitty_id, r),
            r is Ok <==> old(self).free_of(to) >= old(self).stake(),
            r is Ok ==> final(self).owner_of(kitty_id) == Some(to) && final(self).count() == old(self).count(),
            r is Err ==> *final(self) == *old(self),
            stake_backed(old(self)) && old(self).owner_of(kitty_id) == Some(from) ==> stake_backed(final(self)),
            stake_backed(old(self)) && old(self).owner_of(kitty_id) == Some(from) && from != to && r is Ok
                ==> final(self).one_stake_moved(old(self), from, to),
    {
        let stake = self.config.stake_for_each_kitty;
        if self.balances.reserve(to, stake).is_err() {
            return Err(DispatchError::Module(Error::NotEnoughForStaking));
        }
        self.balances.unreserve(from, stake);
        self.owners.set(kitty_id as usize, to);
        self.events.push(Event::KittyTransfer(from, to, kitty_id));
        let r = Ok(());
        proof {
            if stake_backed(old(self)) && old(self).owner_of(kitty_id) == Some(from) {
                lemma_transfer_keeps_stake_backed(old(self), self, from, to, kitty_id, r);
                if from != to {
                    lemma_transfer_moves_one_stake(old(self), self, from, to, kitty_id, r);
                }
            }
        }
        r
    }

    /// Passes a creature of `who` on to `new_owner`, with its stake. Fails,
    /// changing nothing, where `who` does not own it or `new_owner` cannot
    /// cover the stake.
    pub fn transfer(&mut self, who: AccountId, new_owner: AccountId, kitty_id: KittyIndex) -> (r: DispatchResult)
        requires
            old(self).wf(),
        ensures
            final(self).wf(),
            old(self).owner_of(kitty_id) != Some(who) ==> r == Err::<(), DispatchError>(
                DispatchError::Module(Error::NotOwner),
            ),
            old(self).owner_of(kitty_id) == Some(who) ==> final(self).transfer_outcome(
                old(self),
                who,
                new_owner,
                kitty_id,
                r,
            ),
            old(self).owner_of(kitty_id) == Some(who) && old(self).free_of(new_owner) < old(self).stake() ==> r
                == Err::<(), DispatchError>(DispatchError::Module(Error::NotEnoughForStaking)),
            r is Err ==> *final(self) == *old(self),
            stake_backed(old(self)) ==> stake_backed(final(self)),
            stake_backed(old(self)) && who != new_owner && r is Ok ==> final(self).one_stake_moved(
                old(self),
                who,
                new_owner,
            ),
    {
        match self.owner(kitty_id) {
            Some(owner) => {
                if owner != who {
                    return Err(DispatchError::Module(Error::NotOwner));
                }
            },
            None => { return Err(DispatchError::Module(Error::NotOwner)); },
        }
        self.transfer_from(who, new_owner, kitty_id)
    }

    /// Lists a creature of `who` at `price`, or removes its listing where
    /// `price` is `None`. Fails, changing nothing, exactly where `who` does
    /// not own it.
    pub fn sell(&mut self, who: AccountId, kitty_id: KittyIndex, price: Option<Balance>) -> (r: DispatchResult)
        requires
            old(self).wf(),
        ensures
            final(self).wf(),
            old(self).owner_of(kitty_id) != Some(who) ==> r == Err::<(), DispatchError>(
                DispatchError::Module(Error::NotOwner),
            ) && *final(self) == *old(self),
            old(self).owner_of(kitty_id) == Some(who) ==> {
                &&& r == Ok::<(), DispatchError>(())
                &&& final(self).same_context(old(self))
                &&& final(self).kitties@ == old(self).kitties@
                &&& final(self).owners@ == old(self).owners@
                &&& final(self).prices@ == old(self).prices@.update(kitty_id as int, price)
                &&& final(self).balances == old(self).balances
                &&& final(self).events@ == old(self).events@.push(Event::Sell(who, kitty_id, price))
            },
            stake_backed(old(self)) ==> stake_backed(final(self)),
    {
        match self.owner(kitty_id) {
            Some(owner) => {
                if owner != who {
                    return Err(DispatchError::Module(Error::NotOwner));
                }
            },
            None => { return Err(DispatchError::Module(Error::NotOwner)); },
        }
        self.prices.set(kitty_id as usize, price);
        self.events.push(Event::Sell(who, kitty_id, price));
        Ok(())
    }

    /// Buys a listed creature for `who` at its price: the price goes to the
    /// seller, the stake moves, the creature changes hands and its listing
    /// goes. A call that fails changes nothing.
    pub fn buy(&mut self, who: AccountId, kitty_id: KittyIndex) -> (r: DispatchResult)
        requires
            old(self).wf(),
        ensures
            final(self).wf(),
            final(self).buy_outcome(old(self), who, kitty_id, r),
            old(self).owner_of(kitty_id) == Some(who) ==> r == Err::<(), DispatchError>(
                DispatchError::Module(Error::BuyerIsOwner),
            ),
            old(self).owner_of(kitty_id) is Some && old(self).owner_of(kitty_id) != Some(who) && old(
                self,
            ).price_of(kitty_id) is None ==> r == Err::<(), DispatchError>(DispatchError::Module(Error::NotForSale)),
            old(self).owner_of(kitty_id) is Some && old(self).owner_of(kitty_id) != Some(who) && old(
                self,
            ).price_of(kitty_id) is Some && old(self).free_of(who) <= old(self).price_of(kitty_id)->0 + old(
                self,
            ).stake() ==> r == Err::<(), DispatchError>(DispatchError::Module(Error::NotEnoughForBuying)),
            r is Err ==> *final(self) == *old(self),
            stake_backed(old(self)) && (r is Err || old(self).stake() == 0) ==> stake_backed(final(self)),
    {
        let owner = match self.owner(kitty_id) {
            Some(owner) => owner,
            None => { return Err(DispatchError::Module(Error::NotOwner)); },
        };
        if who == owner {
            return Err(DispatchError::Module(Error::BuyerIsOwner));
        }
        let kitty_price = match self.kitties_price(kitty_id) {
            Some(price) => price,
            None => { return Err(DispatchError::Module(Error::NotForSale)); },
        };
        let buyer = self.balances.account_data(who);
        let stake = self.config.stake_for_each_kitty;
        let enough = match kitty_price.checked_add(stake) {
            Some(needed) => buyer.free > needed,
            None => false,
        };
        if !enough {
            return Err(DispatchError::Module(Error::NotEnoughForBuying));
        }
        let seller = self.balances.account_data(owner);
        let (paid, received) = match settle(buyer, seller, kitty_price, stake, self.balances.existential_deposit) {
            Ok(accounts) => accounts,
            Err(e) => { return Err(e); },
        };
        self.balances.set_account(who, paid);
        self.balances.set_account(owner, received);
        self.owners.set(kitty_id as usize, who);
        self.prices.set(kitty_id as usize, None);
        self.events.push(Event::Bought(who, owner, kitty_id, Some(kitty_price)));
        proof {
            if stake_backed(old(self)) && stake == 0 {
                lemma_free_purchase_keeps_stake_backed(
                    old(self),
                    self,
                    who,
                    owner,
                    kitty_id,
                    kitty_price,
                    (paid, received),
                );
            }
        }
        Ok(())
    }
}

} // verus!
