use ledger_runtime::system::Pallet;

#[test]
fn init_system() {
    let system = Pallet::new();
    assert_eq!(system.block_number(), 0);
}

#[test]
fn inc_block_number() {
    let mut system = Pallet::new();
    system.inc_block_number();
    assert_eq!(system.block_number(), 1);
}

#[test]
fn inc_nonce() {
    let mut system = Pallet::new();
    let user = String::from("A");
    system.inc_nonce(&user);
    assert_eq!(system.get_nonce(&user), 1);
}

#[test]
fn nonces_count_per_account() {
    let mut system = Pallet::new();
    let a = String::from("A");
    let b = String::from("B");
    assert_eq!(system.get_nonce(&a), 0);
    system.inc_nonce(&a);
    system.inc_nonce(&a);
    system.inc_nonce(&b);
    assert_eq!(system.get_nonce(&a), 2);
    assert_eq!(system.get_nonce(&b), 1);
}
