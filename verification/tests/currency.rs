use kitties::currency::{pay, AccountData, Balances};
use kitties::genetics::crossover;
use kitties::hashing::random_value;
use kitties::pallet::settle;
use kitties::types::{CurrencyError, DispatchError, Error};

fn account(free: u64, reserved: u64) -> AccountData {
    AccountData { free, reserved }
}

#[test]
fn reserve_moves_free_to_reserved() {
    assert_eq!(account(100, 5).reserve(40), Some(account(60, 45)));
    assert_eq!(account(100, 5).reserve(100), Some(account(0, 105)));
    assert_eq!(account(100, 5).reserve(101), None);
    assert_eq!(account(0, 0).reserve(0), Some(account(0, 0)));
}

#[test]
fn unreserve_releases_no_more_than_is_reserved() {
    assert_eq!(account(10, 50).unreserve(20), account(30, 30));
    assert_eq!(account(10, 50).unreserve(50), account(60, 0));
    assert_eq!(account(10, 50).unreserve(70), account(60, 0));
    assert_eq!(account(10, 0).unreserve(70), account(10, 0));
}

#[test]
fn pay_checks_funds_then_minimum_then_room() {
    assert_eq!(pay(account(100, 0), account(5, 5), 60, 10), Ok((account(40, 0), account(65, 5))));
    assert_eq!(pay(account(100, 0), account(5, 5), 90, 10), Ok((account(10, 0), account(95, 5))));
    assert_eq!(pay(account(100, 0), account(5, 5), 101, 10), Err(CurrencyError::InsufficientBalance));
    assert_eq!(pay(account(100, 0), account(5, 5), 91, 10), Err(CurrencyError::KeepAlive));
    assert_eq!(pay(account(100, 0), account(u64::MAX - 60, 1), 60, 10), Err(CurrencyError::Overflow));
    assert_eq!(pay(account(100, 0), account(1, 2), 6, 10), Err(CurrencyError::ExistentialDeposit));
    assert_eq!(pay(account(100, 0), account(1, 2), 7, 10), Ok((account(93, 0), account(8, 2))));
    assert_eq!(pay(account(5, 0), account(0, 0), 6, 10), Err(CurrencyError::InsufficientBalance));
    assert_eq!(pay(account(100, 0), account(u64::MAX, 0), 95, 10), Err(CurrencyError::Overflow));
    assert_eq!(
        pay(account(100, 0), account(u64::MAX - 61, 1), 60, 10),
        Ok((account(40, 0), account(u64::MAX - 1, 1)))
    );
}

#[test]
fn balances_start_empty_and_keep_what_is_written() {
    let mut b = Balances::new(3);
    assert_eq!(b.existential_deposit, 3);
    assert_eq!(b.account_data(9), account(0, 0));
    assert_eq!(b.deposit(9, 80), Ok(()));
    assert_eq!(b.deposit(9, 20), Ok(()));
    assert_eq!(b.free_balance(9), 100);
    assert_eq!(b.reserve(9, 101), Err(CurrencyError::InsufficientBalance));
    assert_eq!(b.account_data(9), account(100, 0));
    assert_eq!(b.reserve(9, 30), Ok(()));
    assert_eq!(b.account_data(9), account(70, 30));
    assert_eq!(b.unreserve(9, 10), 0);
    assert_eq!(b.account_data(9), account(80, 20));
    assert_eq!(b.unreserve(9, 50), 30);
    assert_eq!(b.account_data(9), account(100, 0));
    assert_eq!(b.reserved_balance(9), 0);
    assert_eq!(b.deposit(9, u64::MAX), Err(CurrencyError::Overflow));
    b.set_account(4, account(1, 2));
    assert_eq!(b.account_data(4), account(1, 2));
    assert_eq!(b.account_data(9), account(100, 0));
}

#[test]
fn settle_moves_the_stake_twice() {
    assert_eq!(settle(account(250, 0), account(950, 50), 100, 50, 1), Ok((account(50, 100), account(1100, 0))));
    assert_eq!(settle(account(500, 0), account(0, 150), 100, 50, 1), Ok((account(300, 100), account(200, 50))));
    assert_eq!(
        settle(account(199, 0), account(950, 50), 100, 50, 1),
        Err(DispatchError::Module(Error::NotEnoughForStaking))
    );
    assert_eq!(
        settle(account(49, 0), account(950, 50), 100, 50, 1),
        Err(DispatchError::Module(Error::NotEnoughForStaking))
    );
    assert_eq!(
        settle(account(149, 0), account(950, 50), 100, 50, 1),
        Err(DispatchError::Currency(CurrencyError::InsufficientBalance))
    );
    assert_eq!(
        settle(account(155, 0), account(950, 50), 100, 50, 10),
        Err(DispatchError::Currency(CurrencyError::KeepAlive))
    );
}

#[test]
fn crossover_takes_set_bits_from_the_first_parent() {
    let mut selector = [0u8; 16];
    let mut first = [0u8; 16];
    let mut second = [0u8; 16];
    for i in 0..16 {
        selector[i] = (i as u8) * 17;
        first[i] = 0xa5;
        second[i] = 0x5a ^ (i as u8);
    }
    let child = crossover(&selector, &first, &second);
    for i in 0..16 {
        assert_eq!(child[i], (selector[i] & first[i]) | (!selector[i] & second[i]));
    }
    assert_eq!(child[0], 0x5a);
    assert_eq!(child[15], 0xa5);
    assert_eq!(child[1], 0x4b);
    assert_eq!(crossover(&[0xff; 16], &first, &second), first);
    assert_eq!(crossover(&[0x00; 16], &first, &second), second);
}

#[test]
fn random_value_is_the_digest_of_the_encoded_payload() {
    assert_eq!(
        random_value(&[0u8; 32], 1, None),
        [94, 85, 93, 3, 146, 178, 228, 254, 65, 171, 235, 35, 69, 153, 176, 209]
    );
    let mut seed = [0u8; 32];
    for i in 0..32 {
        seed[i] = i as u8;
    }
    assert_eq!(
        random_value(&seed, 0x0102030405060708, Some(7)),
        [39, 191, 109, 114, 8, 153, 52, 106, 191, 138, 42, 245, 226, 160, 133, 187]
    );
    let mut bytes = seed.to_vec();
    bytes.extend_from_slice(&[8, 7, 6, 5, 4, 3, 2, 1]);
    bytes.extend_from_slice(&[1, 7, 0, 0, 0]);
    assert_eq!(random_value(&seed, 0x0102030405060708, Some(7)), sp_io::hashing::blake2_128(&bytes));
    assert_ne!(random_value(&seed, 0x0102030405060708, Some(7)), random_value(&seed, 0x0102030405060708, None));
}
