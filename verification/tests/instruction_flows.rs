//! The three instruction flows a deployment exercises end to end: derive
//! the target address, submit the operation, and expect it to succeed.

use defi_analytics::address::{config_address, snapshot_address};
use defi_analytics::ids::AccountId;
use defi_analytics::registry::Registry;
use defi_analytics::state::PERIOD_DAILY;

fn program() -> AccountId {
    AccountId::new(1, 2, 3, 4)
}

fn payer() -> AccountId {
    AccountId::new(10, 20, 30, 40)
}

#[test]
fn initialize_ix_success() {
    let (config_pda, _bump) = config_address(&program()).expect("config address must derive");
    assert_eq!(config_pda.len(), 32);
    let mut reg = Registry::new();
    let wallet = AccountId::new(111, 111, 111, 111);
    let r = reg.initialize(payer(), vec![wallet], 21600, 1_700_000_000);
    assert!(r.is_ok());
    assert_eq!(reg.authority(), payer());
    assert_eq!(reg.wallets(), &vec![wallet]);
}

#[test]
fn add_wallet_ix_success() {
    let mut reg = Registry::new();
    assert!(reg.initialize(payer(), vec![], 21600, 1_700_000_000).is_ok());
    let new_wallet = AccountId::new(1_000_000_000_000, 0, 0, 0);
    let r = reg.add_wallet(payer(), new_wallet);
    assert!(r.is_ok());
    assert_eq!(reg.wallets(), &vec![new_wallet]);
}

#[test]
fn record_revenue_ix_success() {
    let mut reg = Registry::new();
    let wallet = AccountId::new(111, 111, 111, 111);
    assert!(reg.initialize(payer(), vec![wallet], 21600, 1_700_000_000).is_ok());
    let timestamp: i64 = 1_700_000_000;
    let (revenue_pda, _bump) =
        snapshot_address(&program(), &wallet, timestamp).expect("snapshot address must derive");
    assert_eq!(revenue_pda.len(), 32);
    let r = reg.record_revenue(payer(), wallet, timestamp, 50, 100, PERIOD_DAILY);
    assert!(r.is_ok());
    assert!(reg.find_snapshot(wallet, timestamp).is_some());
}
