use minichain::balances::Pallet;
use minichain::support::ErrorKind;
use minichain::Runtime;

#[test]
fn localized_init_balances() {
    let mut balances = Pallet::new();

    assert_eq!(balances.balance(&"alice".to_string()), 0);
    balances.set_balance(&"alice".to_string(), 100);
    assert_eq!(balances.balance(&"alice".to_string()), 100);
    assert_eq!(balances.balance(&"bob".to_string()), 0);
}

#[test]
fn localized_transfer_balance() {
    let mut balances = Pallet::new();

    balances.set_balance(&"alice".to_string(), 100);
    balances.set_balance(&"bob".to_string(), 0);

    assert_eq!(
        balances.transfer(&"alice".to_string(), &"bob".to_string(), 150),
        Err(ErrorKind::InsufficientBalance)
    );

    assert_eq!(balances.transfer(&"alice".to_string(), &"bob".to_string(), 50), Ok(()));

    assert_eq!(balances.balance(&"alice".to_string()), 50);
    assert_eq!(balances.balance(&"bob".to_string()), 50);
}

#[test]
fn integrated_init_balances() {
    let mut runtime = Runtime::new();

    assert_eq!(runtime.balances.balance(&"alice".to_string()), 0);
    runtime.balances.set_balance(&"alice".to_string(), 100);
    assert_eq!(runtime.balances.balance(&"alice".to_string()), 100);
    assert_eq!(runtime.balances.balance(&"bob".to_string()), 0);
}

#[test]
fn integrated_transfer_balance() {
    let mut runtime = Runtime::new();

    runtime.balances.set_balance(&"alice".to_string(), 100);
    runtime.balances.set_balance(&"bob".to_string(), 0);

    assert_eq!(
        runtime.balances.transfer(&"alice".to_string(), &"bob".to_string(), 150),
        Err(ErrorKind::InsufficientBalance)
    );

    assert_eq!(runtime.balances.transfer(&"alice".to_string(), &"bob".to_string(), 50), Ok(()));

    assert_eq!(runtime.balances.balance(&"alice".to_string()), 50);
    assert_eq!(runtime.balances.balance(&"bob".to_string()), 50);
}

#[test]
fn insufficient_transfer_changes_nothing() {
    let mut balances = Pallet::new();
    balances.set_balance(&"alice".to_string(), 100);

    assert_eq!(
        balances.transfer(&"alice".to_string(), &"bob".to_string(), 150),
        Err(ErrorKind::InsufficientBalance)
    );

    assert_eq!(balances.balance(&"alice".to_string()), 100);
    assert_eq!(balances.balance(&"bob".to_string()), 0);
}

#[test]
fn overflowing_transfer_changes_nothing() {
    let mut balances = Pallet::new();
    balances.set_balance(&"alice".to_string(), 10);
    balances.set_balance(&"bob".to_string(), u128::MAX);

    assert_eq!(
        balances.transfer(&"alice".to_string(), &"bob".to_string(), 1),
        Err(ErrorKind::BalanceOverflow)
    );

    assert_eq!(balances.balance(&"alice".to_string()), 10);
    assert_eq!(balances.balance(&"bob".to_string()), u128::MAX);
}

#[test]
fn transfer_conserves_total() {
    let mut balances = Pallet::new();
    balances.set_balance(&"alice".to_string(), 70);
    balances.set_balance(&"bob".to_string(), 30);
    let before = balances.balance(&"alice".to_string()) + balances.balance(&"bob".to_string());

    assert_eq!(balances.transfer(&"alice".to_string(), &"bob".to_string(), 25), Ok(()));

    let after = balances.balance(&"alice".to_string()) + balances.balance(&"bob".to_string());
    assert_eq!(before, after);
    assert_eq!(balances.balance(&"alice".to_string()), 45);
    assert_eq!(balances.balance(&"bob".to_string()), 55);
}

#[test]
fn self_transfer_keeps_balance() {
    let mut balances = Pallet::new();
    balances.set_balance(&"alice".to_string(), 100);

    assert_eq!(balances.transfer(&"alice".to_string(), &"alice".to_string(), 60), Ok(()));

    assert_eq!(balances.balance(&"alice".to_string()), 100);
}

#[test]
fn zero_default_balance() {
    let balances = Pallet::new();
    assert_eq!(balances.balance(&"never_written".to_string()), 0);
}
