use rust_state_machine::balances::Pallet;

#[test]
fn init_balances() {
    let mut balances = Pallet::new();
    assert_eq!(balances.balance(&"alice".to_owned()), 0);
    balances.set_balance(&"alice".to_owned(), 100);
    assert_eq!(balances.balance(&"alice".to_owned()), 100);
    assert_eq!(balances.balance(&"bob".to_owned()), 0);
}

#[test]
fn test_transfer() {
    let mut balances = Pallet::new();
    assert_eq!(
        balances.transfer(&"alice".to_owned(), &"bob".to_owned(), 51),
        Err("Not enough funds.")
    );
    balances.set_balance(&"alice".to_owned(), 100);
    balances.set_balance(&"bob".to_owned(), 100);
    balances.transfer(&"alice".to_owned(), &"bob".to_owned(), 50).unwrap();
    assert_eq!(balances.balance(&"alice".to_owned()), 50);
    assert_eq!(balances.balance(&"bob".to_owned()), 150);
}

#[test]
fn absent_account_has_zero_and_failed_transfer_keeps_it() {
    let mut balances = Pallet::new();
    assert_eq!(balances.balance(&"carol".to_owned()), 0);
    assert!(balances.transfer(&"carol".to_owned(), &"dave".to_owned(), 1).is_err());
    assert_eq!(balances.balance(&"carol".to_owned()), 0);
    assert_eq!(balances.balance(&"dave".to_owned()), 0);
}

#[test]
fn insufficient_funds_changes_nothing() {
    let mut balances = Pallet::new();
    balances.set_balance(&"alice".to_owned(), 10);
    balances.set_balance(&"bob".to_owned(), 5);
    assert_eq!(
        balances.transfer(&"alice".to_owned(), &"bob".to_owned(), 11),
        Err("Not enough funds.")
    );
    assert_eq!(balances.balance(&"alice".to_owned()), 10);
    assert_eq!(balances.balance(&"bob".to_owned()), 5);
}

#[test]
fn overflowing_receiver_is_refused() {
    let mut balances = Pallet::new();
    balances.set_balance(&"alice".to_owned(), 10);
    balances.set_balance(&"bob".to_owned(), u128::MAX - 5);
    assert_eq!(
        balances.transfer(&"alice".to_owned(), &"bob".to_owned(), 6),
        Err("Overflow")
    );
    assert_eq!(balances.balance(&"alice".to_owned()), 10);
    assert_eq!(balances.balance(&"bob".to_owned()), u128::MAX - 5);
    assert_eq!(balances.transfer(&"alice".to_owned(), &"bob".to_owned(), 5), Ok(()));
    assert_eq!(balances.balance(&"alice".to_owned()), 5);
    assert_eq!(balances.balance(&"bob".to_owned()), u128::MAX);
}

#[test]
fn transfer_whole_balance() {
    let mut balances = Pallet::new();
    balances.set_balance(&"alice".to_owned(), 42);
    assert_eq!(balances.transfer(&"alice".to_owned(), &"bob".to_owned(), 42), Ok(()));
    assert_eq!(balances.balance(&"alice".to_owned()), 0);
    assert_eq!(balances.balance(&"bob".to_owned()), 42);
}

#[test]
fn transfer_round_trip_restores_balances() {
    let mut balances = Pallet::new();
    balances.set_balance(&"alice".to_owned(), 70);
    balances.set_balance(&"bob".to_owned(), 3);
    assert_eq!(balances.transfer(&"alice".to_owned(), &"bob".to_owned(), 30), Ok(()));
    assert_eq!(balances.balance(&"alice".to_owned()), 40);
    assert_eq!(balances.balance(&"bob".to_owned()), 33);
    assert_eq!(balances.transfer(&"bob".to_owned(), &"alice".to_owned(), 30), Ok(()));
    assert_eq!(balances.balance(&"alice".to_owned()), 70);
    assert_eq!(balances.balance(&"bob".to_owned()), 3);
}

#[test]
fn self_transfer_changes_nothing() {
    let mut balances = Pallet::new();
    balances.set_balance(&"alice".to_owned(), 100);
    assert_eq!(balances.transfer(&"alice".to_owned(), &"alice".to_owned(), 60), Ok(()));
    assert_eq!(balances.balance(&"alice".to_owned()), 100);
    assert_eq!(
        balances.transfer(&"alice".to_owned(), &"alice".to_owned(), 101),
        Err("Not enough funds.")
    );
    assert_eq!(balances.balance(&"alice".to_owned()), 100);
}

#[test]
fn set_balance_overwrites() {
    let mut balances = Pallet::new();
    balances.set_balance(&"alice".to_owned(), 100);
    balances.set_balance(&"alice".to_owned(), 7);
    assert_eq!(balances.balance(&"alice".to_owned()), 7);
}
