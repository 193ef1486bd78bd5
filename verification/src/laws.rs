use vstd::prelude::*;
use crate::currency::{account_in, AccountData};
use crate::pallet::{settlement, stake_moved, Pallet};
use crate::types::{AccountId, Balance, DispatchResult, KittyIndex};

verus! {

/// How many of the creatures `who` owns.
pub open spec fn owned_count(owners: Seq<AccountId>, who: AccountId) -> nat
    decreases owners.len(),
{
    if owners.len() == 0 {
        0
    } else {
        owned_count(owners.drop_last(), who) + if owners.last() == who {
            1nat
        } else {
            0nat
        }
    }
}

/// Every account has reserved exactly one stake for each creature it owns.
pub open spec fn stake_backed(ledger: &Pallet) -> bool {
    forall|who: AccountId| #[trigger]
        account_in(ledger.balances@, who).reserved == owned_count(ledger.owners@, who) * ledger.stake()
}

/// A new creature adds one to its owner's count and leaves the others.
pub proof fn lemma_owned_count_push(owners: Seq<AccountId>, owner: AccountId, who: AccountId)
    ensures
        owned_count(owners.push(owner), who) == owned_count(owners, who) + if owner == who {
            1nat
        } else {
            0nat
        },
{
    assert(owners.push(owner).drop_last() =~= owners);
}

/// A creature that changes hands takes one from the count of the account
/// that had it and adds one to the count of the account that has it.
pub proof fn lemma_owned_count_update(owners: Seq<AccountId>, i: int, owner: AccountId, who: AccountId)
    requires
        0 <= i < owners.len(),
    ensures
        owned_count(owners.update(i, owner), who) + (if owners[i] == who {
            1nat
        } else {
            0nat
        }) == owned_count(owners, who) + if owner == who {
            1nat
        } else {
            0nat
        },
    decreases owners.len(),
{
    if i == owners.len() - 1 {
        assert(owners.update(i, owner).drop_last() =~= owners.drop_last());
    } else {
        assert(owners.update(i, owner).drop_last() =~= owners.drop_last().update(i, owner));
        lemma_owned_count_update(owners.drop_last(), i, owner, who);
    }
}

/// An account that owns a creature owns at least one.
pub proof fn lemma_owner_counts(owners: Seq<AccountId>, i: int)
    requires
        0 <= i < owners.len(),
    ensures
        owned_count(owners, owners[i]) >= 1,
    decreases owners.len(),
{
    if i < owners.len() - 1 {
        lemma_owner_counts(owners.drop_last(), i);
    }
}

/// A ledger without creatures in which nothing is reserved is backed.
pub proof fn lemma_empty_is_stake_backed(ledger: &Pallet)
    requires
        ledger.owners@.len() == 0,
        ledger.balances@ == Map::<AccountId, AccountData>::empty(),
    ensures
        stake_backed(ledger),
{
    assert forall|who: AccountId| #[trigger]
        account_in(ledger.balances@, who).reserved == owned_count(ledger.owners@, who) * ledger.stake() by {
        assert(owned_count(ledger.owners@, who) == 0);
        assert(0 * ledger.stake() == 0);
    }
}

/// Creation and breeding keep the ledger backed: the stake that the call
/// reserves stands for the creature that it makes.
pub proof fn lemma_create_keeps_stake_backed(
    pre: &Pallet,
    post: &Pallet,
    who: AccountId,
    dna: Seq<u8>,
    r: DispatchResult,
)
    requires
        pre.wf(),
        stake_backed(pre),
        post.create_outcome(pre, who, dna, r),
    ensures
        stake_backed(post),
{
    if r is Ok {
        let k = pre.stake();
        assert forall|a: AccountId| #[trigger]
            account_in(post.balances@, a).reserved == owned_count(post.owners@, a) * post.stake() by {
            lemma_owned_count_push(pre.owners@, who, a);
            let c = owned_count(pre.owners@, a);
            assert(account_in(pre.balances@, a).reserved == c * k);
            if a == who {
                assert(account_in(pre.balances@, who).wf());
                assert((c + 1) * k == c * k + k) by (nonlinear_arith);
            }
        }
    }
}

/// Breeding keeps the ledger backed, as creation does.
pub proof fn lemma_breed_keeps_stake_backed(
    pre: &Pallet,
    post: &Pallet,
    who: AccountId,
    kitty_id_1: KittyIndex,
    kitty_id_2: KittyIndex,
    selector: Seq<u8>,
    r: DispatchResult,
)
    requires
        pre.wf(),
        stake_backed(pre),
        post.breed_outcome(pre, who, kitty_id_1, kitty_id_2, selector, r),
    ensures
        stake_backed(post),
{
    if r is Ok {
        lemma_create_keeps_stake_backed(
            pre,
            post,
            who,
            crate::genetics::crossover_spec(
                selector,
                pre.kitties@[kitty_id_1 as int].0@,
                pre.kitties@[kitty_id_2 as int].0@,
            ),
            r,
        );
    }
}

/// A transfer by the owner keeps the ledger backed: the stake moves with the
/// creature.
pub proof fn lemma_transfer_keeps_stake_backed(
    pre: &Pallet,
    post: &Pallet,
    from: AccountId,
    to: AccountId,
    kitty_id: KittyIndex,
    r: DispatchResult,
)
    requires
        pre.wf(),
        stake_backed(pre),
        pre.owner_of(kitty_id) == Some(from),
        post.transfer_outcome(pre, from, to, kitty_id, r),
    ensures
        stake_backed(post),
{
    if r is Ok {
        let k = pre.stake();
        let held = owned_count(pre.owners@, from);
        lemma_owner_counts(pre.owners@, kitty_id as int);
        assert(account_in(pre.balances@, from).reserved == held * k);
        assert(held * k >= k) by (nonlinear_arith)
            requires
                held >= 1,
                k >= 0,
        ;
        assert(account_in(pre.balances@, to).wf());
        assert(account_in(pre.balances@, from).wf());
        assert forall|a: AccountId| #[trigger]
            account_in(post.balances@, a).reserved == owned_count(post.owners@, a) * post.stake() by {
            lemma_owned_count_update(pre.owners@, kitty_id as int, to, a);
            let c = owned_count(pre.owners@, a);
            assert(account_in(pre.balances@, a).reserved == c * k);
            assert(post.balances@ == stake_moved(pre.balances@, from, to, k));
            if from != to {
                if a == to {
                    assert((c + 1) * k == c * k + k) by (nonlinear_arith);
                } else if a == from {
                    assert((c - 1) * k == c * k - k) by (nonlinear_arith);
                }
            }
        }
    }
}

/// Where the stake is nothing, a purchase keeps the ledger backed. Where it
/// is not, a purchase leaves the buyer with two stakes reserved for the one
/// creature bought.
pub proof fn lemma_free_purchase_keeps_stake_backed(
    pre: &Pallet,
    post: &Pallet,
    buyer: AccountId,
    seller: AccountId,
    kitty_id: KittyIndex,
    price: Balance,
    accounts: (AccountData, AccountData),
)
    requires
        pre.wf(),
        stake_backed(pre),
        pre.stake() == 0,
        pre.owner_of(kitty_id) == Some(seller),
        settlement(
            account_in(pre.balances@, buyer),
            account_in(pre.balances@, seller),
            price,
            0,
            pre.balances.existential_deposit,
        ) == Ok::<(AccountData, AccountData), crate::types::DispatchError>(accounts),
        post.bought_from(pre, buyer, seller, kitty_id, price, accounts),
    ensures
        stake_backed(post),
{
    assert(account_in(pre.balances@, buyer).reserved == owned_count(pre.owners@, buyer) * 0);
    assert(account_in(pre.balances@, seller).reserved == owned_count(pre.owners@, seller) * 0);
    assert forall|a: AccountId| #[trigger]
        account_in(post.balances@, a).reserved == owned_count(post.owners@, a) * post.stake() by {
        assert(account_in(pre.balances@, a).reserved == owned_count(pre.owners@, a) * 0);
        assert(owned_count(post.owners@, a) * 0 == 0);
    }
}

/// What is reserved for the listed accounts, taken together.
pub open spec fn reserved_sum(accounts: Map<AccountId, AccountData>, who: Seq<AccountId>) -> nat
    decreases who.len(),
{
    if who.len() == 0 {
        0
    } else {
        reserved_sum(accounts, who.drop_last()) + account_in(accounts, who.last()).reserved as nat
    }
}

/// How many creatures the listed accounts own, taken together.
pub open spec fn owned_sum(owners: Seq<AccountId>, who: Seq<AccountId>) -> nat
    decreases who.len(),
{
    if who.len() == 0 {
        0
    } else {
        owned_sum(owners, who.drop_last()) + owned_count(owners, who.last())
    }
}

/// Where there are no creatures, the listed accounts own none.
proof fn lemma_owned_sum_of_none(who: Seq<AccountId>)
    ensures
        owned_sum(Seq::<AccountId>::empty(), who) == 0,
    decreases who.len(),
{
    if who.len() > 0 {
        lemma_owned_sum_of_none(who.drop_last());
    }
}

/// One more creature adds to the sum as often as its owner is listed.
proof fn lemma_owned_sum_step(owners: Seq<AccountId>, who: Seq<AccountId>)
    requires
        owners.len() > 0,
    ensures
        owned_sum(owners, who) == owned_sum(owners.drop_last(), who) + owned_count(who, owners.last()),
    decreases who.len(),
{
    if who.len() > 0 {
        lemma_owned_sum_step(owners, who.drop_last());
    }
}

/// What is not in a list is counted no times in it.
proof fn lemma_absent_counts_zero(list: Seq<AccountId>, x: AccountId)
    requires
        !list.contains(x),
    ensures
        owned_count(list, x) == 0,
    decreases list.len(),
{
    if list.len() > 0 {
        assert(list[list.len() - 1] != x);
        assert forall|i: int| 0 <= i < list.drop_last().len() implies list.drop_last()[i] != x by {
            assert(list[i] == list.drop_last()[i]);
        }
        lemma_absent_counts_zero(list.drop_last(), x);
    }
}

/// What is in a list without repetitions is counted once in it.
proof fn lemma_listed_once(list: Seq<AccountId>, x: AccountId)
    requires
        list.no_duplicates(),
        list.contains(x),
    ensures
        owned_count(list, x) == 1,
    decreases list.len(),
{
    let rest = list.drop_last();
    let at = choose|i: int| 0 <= i < list.len() && list[i] == x;
    if list.last() == x {
        assert forall|i: int| 0 <= i < rest.len() implies rest[i] != x by {
            assert(list[i] == rest[i]);
        }
        lemma_absent_counts_zero(rest, x);
    } else {
        assert(rest[at] == x);
        lemma_listed_once(rest, x);
    }
}

/// Accounts that are listed once each, every owner among them, own all the
/// creatures together.
proof fn lemma_owned_sum_is_len(owners: Seq<AccountId>, who: Seq<AccountId>)
    requires
        who.no_duplicates(),
        forall|i: int| 0 <= i < owners.len() ==> who.contains(#[trigger] owners[i]),
    ensures
        owned_sum(owners, who) == owners.len(),
    decreases owners.len(),
{
    if owners.len() == 0 {
        assert(owners =~= Seq::<AccountId>::empty());
        lemma_owned_sum_of_none(who);
    } else {
        let rest = owners.drop_last();
        assert forall|i: int| 0 <= i < rest.len() implies who.contains(#[trigger] rest[i]) by {
            assert(rest[i] == owners[i]);
        }
        lemma_owned_sum_is_len(rest, who);
        lemma_owned_sum_step(owners, who);
        assert(who.contains(owners[owners.len() - 1]));
        lemma_listed_once(who, owners.last());
    }
}

/// In a backed ledger the listed accounts have reserved one stake for each
/// creature that they own.
proof fn lemma_reserved_sum_backed(ledger: &Pallet, who: Seq<AccountId>)
    requires
        stake_backed(ledger),
    ensures
        reserved_sum(ledger.balances@, who) == owned_sum(ledger.owners@, who) * ledger.stake(),
    decreases who.len(),
{
    if who.len() == 0 {
        assert(0 * ledger.stake() == 0);
    } else {
        lemma_reserved_sum_backed(ledger, who.drop_last());
        let a = owned_sum(ledger.owners@, who.drop_last());
        let b = owned_count(ledger.owners@, who.last());
        let k = ledger.stake();
        assert(account_in(ledger.balances@, who.last()).reserved == b * k);
        assert((a + b) * k == a * k + b * k) by (nonlinear_arith);
    }
}

/// In a backed ledger the stakes add up: over any list of accounts that
/// names every owner, and none twice, what is reserved comes to one stake
/// for each creature.
pub proof fn lemma_reserved_total(ledger: &Pallet, who: Seq<AccountId>)
    requires
        ledger.wf(),
        stake_backed(ledger),
        who.no_duplicates(),
        forall|i: int| 0 <= i < ledger.owners@.len() ==> who.contains(#[trigger] ledger.owners@[i]),
    ensures
        reserved_sum(ledger.balances@, who) == ledger.count() * ledger.stake(),
{
    lemma_reserved_sum_backed(ledger, who);
    lemma_owned_sum_is_len(ledger.owners@, who);
}

/// A transfer by the owner to another account that can cover the stake
/// succeeds and moves exactly one stake: the new owner has one more
/// reserved, the old owner one less, and each can spend as much less or
/// more.
pub proof fn lemma_transfer_moves_one_stake(
    pre: &Pallet,
    post: &Pallet,
    from: AccountId,
    to: AccountId,
    kitty_id: KittyIndex,
    r: DispatchResult,
)
    requires
        pre.wf(),
        stake_backed(pre),
        pre.owner_of(kitty_id) == Some(from),
        from != to,
        pre.free_of(to) >= pre.stake(),
        post.transfer_outcome(pre, from, to, kitty_id, r),
    ensures
        r == Ok::<(), crate::types::DispatchError>(()),
        post.owner_of(kitty_id) == Some(to),
        post.one_stake_moved(pre, from, to),
{
    let k = pre.stake();
    let held = owned_count(pre.owners@, from);
    lemma_owner_counts(pre.owners@, kitty_id as int);
    assert(account_in(pre.balances@, from).reserved == held * k);
    assert(held * k >= k) by (nonlinear_arith)
        requires
            held >= 1,
            k >= 0,
    ;
    assert(account_in(pre.balances@, to).wf());
    assert(account_in(pre.balances@, from).wf());
    assert(post.balances@ == stake_moved(pre.balances@, from, to, k));
}

/// A transfer by the owner leaves the stakes adding up as before: over any
/// list of accounts that names every owner and the recipient, and none
/// twice, what is reserved comes to one stake for each creature.
pub proof fn lemma_transfer_keeps_total(
    pre: &Pallet,
    post: &Pallet,
    from: AccountId,
    to: AccountId,
    kitty_id: KittyIndex,
    r: DispatchResult,
    who: Seq<AccountId>,
)
    requires
        pre.wf(),
        post.wf(),
        stake_backed(pre),
        pre.owner_of(kitty_id) == Some(from),
        post.transfer_outcome(pre, from, to, kitty_id, r),
        who.no_duplicates(),
        who.contains(to),
        forall|i: int| 0 <= i < pre.owners@.len() ==> who.contains(#[trigger] pre.owners@[i]),
    ensures
        post.count() == pre.count(),
        reserved_sum(pre.balances@, who) == pre.count() * pre.stake(),
        reserved_sum(post.balances@, who) == reserved_sum(pre.balances@, who),
{
    lemma_transfer_keeps_stake_backed(pre, post, from, to, kitty_id, r);
    lemma_reserved_total(pre, who);
    assert forall|i: int| 0 <= i < post.owners@.len() implies who.contains(#[trigger] post.owners@[i]) by {
        if r is Ok && i != kitty_id as int {
            assert(post.owners@[i] == pre.owners@[i]);
        }
    }
    lemma_reserved_total(post, who);
}

} // verus!
