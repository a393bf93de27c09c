use polkadot_erc20::account::AccountId;
use polkadot_erc20::ledger::PolkadotErc20;

fn founder() -> AccountId {
    AccountId::from([0x1; 32])
}

fn stranger() -> AccountId {
    AccountId::from([0x0; 32])
}

fn numbered(n: u8) -> AccountId {
    let mut bytes = [0x7; 32];
    bytes[31] = n;
    AccountId::from(bytes)
}

#[test]
fn new_works() {
    let contract = PolkadotErc20::new(999, founder());
    assert_eq!(contract.total_supply(), 999);
}

#[test]
fn balance_works() {
    let contract = PolkadotErc20::new(100, founder());
    assert_eq!(contract.total_supply(), 100);
    assert_eq!(contract.balance_of(AccountId::from([0x1; 32])), 100);
    assert_eq!(contract.balance_of(AccountId::from([0x0; 32])), 0);
}

#[test]
fn transfer_works() {
    let mut contract = PolkadotErc20::new(100, founder());
    assert_eq!(contract.balance_of(AccountId::from([0x1; 32])), 100);
    assert!(contract.transfer(founder(), AccountId::from([0x0; 32]), 10));
    assert_eq!(contract.balance_of(AccountId::from([0x0; 32])), 10);
    assert!(!contract.transfer(founder(), AccountId::from([0x0; 32]), 100));
}

#[test]
fn transfer_moves_the_units() {
    let mut ledger = PolkadotErc20::new(100, founder());
    assert!(ledger.transfer(founder(), stranger(), 10));
    assert_eq!(ledger.balance_of(stranger()), 10);
    assert_eq!(ledger.balance_of(founder()), 90);
    assert_eq!(ledger.total_supply(), 100);
}

#[test]
fn rejected_transfer_changes_nothing() {
    let mut ledger = PolkadotErc20::new(100, founder());
    assert!(ledger.transfer(founder(), stranger(), 10));
    assert!(!ledger.transfer(founder(), stranger(), 100));
    assert_eq!(ledger.balance_of(founder()), 90);
    assert_eq!(ledger.balance_of(stranger()), 10);
    assert!(!ledger.transfer(stranger(), founder(), 11));
    assert_eq!(ledger.balance_of(founder()), 90);
    assert_eq!(ledger.balance_of(stranger()), 10);
}

#[test]
fn transfer_from_an_unseen_account_is_rejected() {
    let mut ledger = PolkadotErc20::new(100, founder());
    assert!(!ledger.transfer(stranger(), founder(), 1));
    assert_eq!(ledger.balance_of(founder()), 100);
    assert_eq!(ledger.balance_of(stranger()), 0);
}

#[test]
fn self_transfer_keeps_the_balance() {
    let mut ledger = PolkadotErc20::new(50, founder());
    assert!(ledger.transfer(founder(), founder(), 20));
    assert_eq!(ledger.balance_of(founder()), 50);
    assert!(ledger.transfer(founder(), founder(), 50));
    assert_eq!(ledger.balance_of(founder()), 50);
    assert!(!ledger.transfer(founder(), founder(), 51));
    assert_eq!(ledger.balance_of(founder()), 50);
}

#[test]
fn zero_transfer_always_succeeds() {
    let mut ledger = PolkadotErc20::new(100, founder());
    assert!(ledger.transfer(founder(), stranger(), 0));
    assert_eq!(ledger.balance_of(founder()), 100);
    assert_eq!(ledger.balance_of(stranger()), 0);
    assert!(ledger.transfer(stranger(), numbered(1), 0));
    assert_eq!(ledger.balance_of(stranger()), 0);
    assert_eq!(ledger.balance_of(numbered(1)), 0);
    assert!(ledger.transfer(numbered(2), numbered(2), 0));
    assert_eq!(ledger.balance_of(numbered(2)), 0);
}

#[test]
fn zero_supply_is_valid() {
    let mut ledger = PolkadotErc20::new(0, founder());
    assert_eq!(ledger.total_supply(), 0);
    assert_eq!(ledger.balance_of(founder()), 0);
    assert!(ledger.transfer(founder(), stranger(), 0));
    assert!(!ledger.transfer(founder(), stranger(), 1));
}

#[test]
fn largest_supply_is_valid() {
    let mut ledger = PolkadotErc20::new(u128::MAX, founder());
    assert_eq!(ledger.total_supply(), u128::MAX);
    assert_eq!(ledger.balance_of(founder()), u128::MAX);
    assert!(ledger.transfer(founder(), stranger(), u128::MAX));
    assert_eq!(ledger.balance_of(founder()), 0);
    assert_eq!(ledger.balance_of(stranger()), u128::MAX);
    assert!(ledger.transfer(stranger(), stranger(), u128::MAX));
    assert_eq!(ledger.balance_of(stranger()), u128::MAX);
}

#[test]
fn balances_add_up_to_the_supply() {
    let mut ledger = PolkadotErc20::new(1000, founder());
    let accounts = [founder(), stranger(), numbered(1), numbered(2), numbered(3)];
    let moves: [(usize, usize, u128); 8] = [
        (0, 1, 300),
        (1, 2, 120),
        (2, 3, 500),
        (0, 4, 700),
        (1, 1, 180),
        (4, 0, 1),
        (2, 3, 120),
        (3, 0, 0),
    ];
    let expected = [true, true, false, true, true, true, true, true];
    for (i, (from, to, value)) in moves.iter().enumerate() {
        assert_eq!(ledger.transfer(accounts[*from], accounts[*to], *value), expected[i]);
        let mut sum: u128 = 0;
        for account in accounts.iter() {
            sum += ledger.balance_of(*account);
        }
        assert_eq!(sum, 1000);
        assert_eq!(ledger.total_supply(), 1000);
    }
    assert_eq!(ledger.balance_of(accounts[0]), 1);
    assert_eq!(ledger.balance_of(accounts[1]), 180);
    assert_eq!(ledger.balance_of(accounts[2]), 0);
    assert_eq!(ledger.balance_of(accounts[3]), 120);
    assert_eq!(ledger.balance_of(accounts[4]), 699);
}

#[test]
fn try_transfer_does_what_transfer_does() {
    let mut ledger = PolkadotErc20::new(100, founder());
    assert_eq!(ledger.try_transfer(founder(), stranger(), 10), Some(true));
    assert_eq!(ledger.balance_of(stranger()), 10);
    assert_eq!(ledger.balance_of(founder()), 90);
    assert_eq!(ledger.try_transfer(founder(), stranger(), 100), Some(false));
    assert_eq!(ledger.balance_of(founder()), 90);
    assert_eq!(ledger.balance_of(stranger()), 10);
    assert_eq!(ledger.try_transfer(stranger(), stranger(), 10), Some(true));
    assert_eq!(ledger.balance_of(stranger()), 10);
    assert_eq!(ledger.try_transfer(numbered(1), numbered(2), 0), Some(true));
    assert_eq!(ledger.balance_of(numbered(1)), 0);
    assert_eq!(ledger.balance_of(numbered(2)), 0);
}

#[test]
fn a_stored_balance_is_replaced_not_added() {
    let mut ledger = PolkadotErc20::new(10, founder());
    assert!(ledger.transfer(founder(), stranger(), 4));
    assert!(ledger.transfer(founder(), stranger(), 3));
    assert_eq!(ledger.balance_of(founder()), 3);
    assert_eq!(ledger.balance_of(stranger()), 7);
    assert!(ledger.transfer(stranger(), founder(), 7));
    assert_eq!(ledger.balance_of(founder()), 10);
    assert_eq!(ledger.balance_of(stranger()), 0);
}

#[test]
fn accounts_differ_by_any_byte() {
    let mut ledger = PolkadotErc20::new(5, numbered(1));
    assert_eq!(ledger.balance_of(numbered(1)), 5);
    assert_eq!(ledger.balance_of(numbered(2)), 0);
    let mut first = [0x7; 32];
    first[31] = 1;
    first[0] = 0x8;
    assert_eq!(ledger.balance_of(AccountId::from(first)), 0);
    assert!(ledger.transfer(numbered(1), AccountId::from(first), 2));
    assert_eq!(ledger.balance_of(AccountId::from(first)), 2);
    assert_eq!(ledger.balance_of(numbered(1)), 3);
}
