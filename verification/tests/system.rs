use minichain::system::Pallet;
use minichain::Runtime;

#[test]
fn localized_init_system() {
    let mut system = Pallet::new();

    assert_eq!(system.block_number(), 0);
    system.inc_block_number();
    assert_eq!(system.block_number(), 1);

    let alice = String::from("alice");
    let bob = String::from("bob");
    assert_eq!(system.nonce(&alice), 0);
    system.inc_nonce(&alice);
    assert_eq!(system.nonce(&alice), 1);
    assert_eq!(system.nonce(&bob), 0);
}

#[test]
fn integrated_init_system() {
    let mut runtime = Runtime::new();

    assert_eq!(runtime.system.block_number(), 0);
    runtime.system.inc_block_number();
    assert_eq!(runtime.system.block_number(), 1);

    let alice = String::from("alice");
    let bob = String::from("bob");
    assert_eq!(runtime.system.nonce(&alice), 0);
    runtime.system.inc_nonce(&alice);
    assert_eq!(runtime.system.nonce(&alice), 1);
    assert_eq!(runtime.system.nonce(&bob), 0);
}

#[test]
fn counters_move_by_exactly_one() {
    let mut system = Pallet::new();
    let alice = String::from("alice");
    let bob = String::from("bob");

    system.inc_block_number();
    system.inc_block_number();
    assert_eq!(system.block_number(), 2);

    system.inc_nonce(&alice);
    system.inc_nonce(&alice);
    system.inc_nonce(&bob);
    assert_eq!(system.nonce(&alice), 2);
    assert_eq!(system.nonce(&bob), 1);
    // incrementing one account's nonce leaves every other account untouched
    assert_eq!(system.nonce(&String::from("charlie")), 0);
    // and the nonce bookkeeping leaves the block number alone
    assert_eq!(system.block_number(), 2);
}

#[test]
fn zero_default_nonce() {
    let system = Pallet::new();
    assert_eq!(system.nonce(&String::from("never_written")), 0);
}
