use ledger_runtime::balances::Pallet;
use ledger_runtime::support::Error;

#[test]
fn init_balances() {
    let mut balances = Pallet::new();
    assert_eq!(balances.balance(&"A".to_string()), 0);
    balances.set_balance(&"A".to_string(), 100);

    assert_eq!(balances.balance(&"A".to_string()), 100);
}

#[test]
fn transfer_balance() {
    let a = "A".to_string();
    let b = "B".to_string();
    let mut balances = Pallet::new();
    balances.set_balance(&a, 100);
    let _ = balances.transfer(a.clone(), b.clone(), 50);

    assert_eq!(balances.balance(&a), 50);
    assert_eq!(balances.balance(&b), 50);
}

#[test]
fn transfer_insufficient_balance() {
    let a = "A".to_string();
    let b = "B".to_string();
    let mut balances = Pallet::new();
    let result = balances.transfer(a.clone(), b.clone(), 200);

    assert_eq!(result, Err(Error::InsufficientFunds));
    assert_eq!(balances.balance(&a), 0);
    assert_eq!(balances.balance(&b), 0);
}

#[test]
fn transfer_overflow_balance() {
    let a = "A".to_string();
    let b = "B".to_string();
    let mut balances = Pallet::new();
    balances.set_balance(&a, u128::MAX);
    balances.set_balance(&b, 100);
    let result = balances.transfer(b.clone(), a.clone(), 50);

    assert_eq!(result, Err(Error::BalanceOverflow));
    assert_eq!(balances.balance(&a), u128::MAX);
    assert_eq!(balances.balance(&b), 100);
}

#[test]
fn insufficient_funds_preserves_balances() {
    let a = "A".to_string();
    let b = "B".to_string();
    let mut balances = Pallet::new();
    balances.set_balance(&a, 100);
    let result = balances.transfer(a.clone(), b.clone(), 200);

    assert_eq!(result, Err(Error::InsufficientFunds));
    assert_eq!(balances.balance(&a), 100);
    assert_eq!(balances.balance(&b), 0);
}

#[test]
fn self_transfer_keeps_balance() {
    let a = "A".to_string();
    let mut balances = Pallet::new();
    balances.set_balance(&a, 100);

    assert_eq!(balances.transfer(a.clone(), a.clone(), 50), Ok(()));
    assert_eq!(balances.balance(&a), 100);

    assert_eq!(
        balances.transfer(a.clone(), a.clone(), 150),
        Err(Error::InsufficientFunds)
    );
    assert_eq!(balances.balance(&a), 100);
}

#[test]
fn self_transfer_never_overflows() {
    let a = "A".to_string();
    let mut balances = Pallet::new();
    balances.set_balance(&a, u128::MAX);

    assert_eq!(balances.transfer(a.clone(), a.clone(), 1), Ok(()));
    assert_eq!(balances.balance(&a), u128::MAX);
}
