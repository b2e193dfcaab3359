use defi_analytics::error::AnalyticsError;
use defi_analytics::ids::AccountId;
use defi_analytics::registry::{Operation, Registry};
use defi_analytics::state::{
    CONFIG_HEADER_BYTES, CONFIG_SPACE, PERIOD_DAILY, PERIOD_MONTHLY, PERIOD_WEEKLY, PERIOD_YEARLY,
    SNAPSHOT_SPACE, WALLET_CAPACITY, WALLET_ENTRY_BYTES,
};

fn authority() -> AccountId {
    AccountId::new(11, 22, 33, 44)
}

fn w(n: u64) -> AccountId {
    AccountId::new(n, 0, 0, 0)
}

fn initialized(wallets: Vec<AccountId>) -> Registry {
    let mut reg = Registry::new();
    let r = reg.initialize(authority(), wallets, 21600, 1_000_000);
    assert_eq!(r, Ok(()));
    reg
}

#[test]
fn initialize_creates_config() {
    let mut reg = Registry::new();
    assert!(!reg.is_initialized());
    let r = reg.initialize(authority(), vec![w(1)], 21600, 1_000_000);
    assert_eq!(r, Ok(()));
    assert!(reg.is_initialized());
    assert_eq!(reg.authority(), authority());
    assert_eq!(reg.wallets(), &vec![w(1)]);
    assert_eq!(reg.update_interval(), 21600);
    assert_eq!(reg.last_updated(), 1_000_000);
}

#[test]
fn initialize_twice_fails_already_initialized() {
    let mut reg = initialized(vec![w(1)]);
    let r = reg.initialize(authority(), vec![w(2)], 60, 2_000_000);
    assert_eq!(r, Err(AnalyticsError::AlreadyInitialized));
    // Even the stored authority and identical arguments collide.
    let r = reg.initialize(authority(), vec![w(1)], 21600, 1_000_000);
    assert_eq!(r, Err(AnalyticsError::AlreadyInitialized));
    assert_eq!(reg.wallets(), &vec![w(1)]);
    assert_eq!(reg.update_interval(), 21600);
}

#[test]
fn initialize_first_writer_wins() {
    // Creation carries no authority check: whoever initializes becomes the
    // authority.
    let mut reg = Registry::new();
    let first = w(77);
    assert_eq!(reg.initialize(first, vec![], 60, 5), Ok(()));
    assert_eq!(reg.authority(), first);
    assert_eq!(reg.initialize(authority(), vec![], 60, 5), Err(AnalyticsError::AlreadyInitialized));
}

#[test]
fn initialize_rejects_oversized_wallet_list() {
    let mut reg = Registry::new();
    let too_many: Vec<AccountId> = (0..WALLET_CAPACITY as u64 + 1).map(w).collect();
    let r = reg.initialize(authority(), too_many, 21600, 1_000_000);
    assert_eq!(r, Err(AnalyticsError::CapacityExceeded));
    assert!(!reg.is_initialized());
    let exactly_full: Vec<AccountId> = (0..WALLET_CAPACITY as u64).map(w).collect();
    assert_eq!(reg.initialize(authority(), exactly_full, 21600, 1_000_000), Ok(()));
}

#[test]
fn capacity_is_the_allocation_formula() {
    assert_eq!(WALLET_CAPACITY, (CONFIG_SPACE - CONFIG_HEADER_BYTES) / WALLET_ENTRY_BYTES);
    assert_eq!(WALLET_CAPACITY, 10);
    // The snapshot allocation is the discriminator plus the five fields.
    assert_eq!(SNAPSHOT_SPACE, 8 + 8 + 32 + 8 + 8 + 1);
}

#[test]
fn add_wallet_by_authority_appends() {
    let mut reg = initialized(vec![w(1)]);
    let r = reg.add_wallet(authority(), w(2));
    assert_eq!(r, Ok(()));
    assert_eq!(reg.wallets(), &vec![w(1), w(2)]);
}

#[test]
fn add_wallet_by_non_authority_fails_unauthorized() {
    let mut reg = initialized(vec![w(1)]);
    let r = reg.add_wallet(w(99), w(2));
    assert_eq!(r, Err(AnalyticsError::Unauthorized));
    assert_eq!(reg.wallets(), &vec![w(1)]);
}

#[test]
fn add_wallet_beyond_capacity_fails() {
    let full: Vec<AccountId> = (0..WALLET_CAPACITY as u64).map(w).collect();
    let mut reg = initialized(full.clone());
    let r = reg.add_wallet(authority(), w(1000));
    assert_eq!(r, Err(AnalyticsError::CapacityExceeded));
    assert_eq!(reg.wallets(), &full);
}

#[test]
fn add_then_remove_restores_list() {
    let mut reg = initialized(vec![w(1), w(2)]);
    assert_eq!(reg.add_wallet(authority(), w(3)), Ok(()));
    assert_eq!(reg.remove_wallet(authority(), w(3)), Ok(()));
    assert_eq!(reg.wallets(), &vec![w(1), w(2)]);
}

#[test]
fn remove_wallet_takes_first_match() {
    let mut reg = initialized(vec![w(1), w(2)]);
    assert_eq!(reg.add_wallet(authority(), w(1)), Ok(()));
    assert_eq!(reg.wallets(), &vec![w(1), w(2), w(1)]);
    assert_eq!(reg.remove_wallet(authority(), w(1)), Ok(()));
    assert_eq!(reg.wallets(), &vec![w(2), w(1)]);
}

#[test]
fn remove_wallet_not_tracked_fails_not_found() {
    let mut reg = initialized(vec![w(1), w(2)]);
    let r = reg.remove_wallet(authority(), w(3));
    assert_eq!(r, Err(AnalyticsError::NotFound));
    assert_eq!(reg.wallets(), &vec![w(1), w(2)]);
}

#[test]
fn remove_wallet_by_non_authority_fails_unauthorized() {
    let mut reg = initialized(vec![w(1)]);
    assert_eq!(reg.remove_wallet(w(99), w(1)), Err(AnalyticsError::Unauthorized));
    assert_eq!(reg.wallets(), &vec![w(1)]);
}

#[test]
fn update_config_replaces_cadence_and_clock() {
    let mut reg = initialized(vec![w(1)]);
    let r = reg.update_config(authority(), 3600, 2_000_000);
    assert_eq!(r, Ok(()));
    assert_eq!(reg.update_interval(), 3600);
    assert_eq!(reg.last_updated(), 2_000_000);
    assert_eq!(reg.wallets(), &vec![w(1)]);
}

#[test]
fn update_config_by_non_authority_fails_unauthorized() {
    let mut reg = initialized(vec![w(1)]);
    assert_eq!(reg.update_config(w(99), 3600, 2_000_000), Err(AnalyticsError::Unauthorized));
    assert_eq!(reg.update_interval(), 21600);
    assert_eq!(reg.last_updated(), 1_000_000);
}

#[test]
fn record_revenue_creates_snapshot() {
    let mut reg = initialized(vec![w(1)]);
    let r = reg.record_revenue(authority(), w(1), 1000, 50, 100, PERIOD_DAILY);
    assert_eq!(r, Ok(()));
    assert_eq!(reg.snapshot_count(), 1);
    assert!(reg.find_snapshot(w(2), 1000).is_none());
    assert!(reg.find_snapshot(w(1), 1001).is_none());
    let snap = reg.find_snapshot(w(1), 1000).expect("snapshot should be recorded");
    assert_eq!(snap.wallet, w(1));
    assert_eq!(snap.timestamp, 1000);
    assert_eq!(snap.sol_amount, 50);
    assert_eq!(snap.usdc_amount, 100);
    assert_eq!(snap.period_type, PERIOD_DAILY);
}

#[test]
fn record_revenue_same_pair_fails_already_exists() {
    let mut reg = initialized(vec![w(1)]);
    assert_eq!(reg.record_revenue(authority(), w(1), 1000, 50, 100, PERIOD_DAILY), Ok(()));
    let r = reg.record_revenue(authority(), w(1), 1000, 60, 110, PERIOD_DAILY);
    assert_eq!(r, Err(AnalyticsError::AlreadyExists));
    // The first snapshot is immutable: its amounts are unchanged.
    let snap = reg.find_snapshot(w(1), 1000).unwrap();
    assert_eq!(snap.sol_amount, 50);
    assert_eq!(snap.usdc_amount, 100);
    assert_eq!(reg.snapshot_count(), 1);
}

#[test]
fn record_revenue_distinct_timestamps_succeed_independently() {
    let mut reg = initialized(vec![w(1)]);
    assert_eq!(reg.record_revenue(authority(), w(1), 1000, 50, 100, PERIOD_DAILY), Ok(()));
    assert_eq!(reg.record_revenue(authority(), w(1), 2000, 60, 110, PERIOD_DAILY), Ok(()));
    assert_eq!(reg.snapshot_count(), 2);
    assert_eq!(reg.find_snapshot(w(1), 2000).unwrap().sol_amount, 60);
    // A different wallet at an already-used timestamp is independent too.
    assert_eq!(reg.record_revenue(authority(), w(2), 1000, 5, 10, PERIOD_WEEKLY), Ok(()));
}

#[test]
fn record_revenue_invalid_period_type_fails() {
    let mut reg = initialized(vec![w(1)]);
    let r = reg.record_revenue(authority(), w(1), 1000, 50, 100, 4);
    assert_eq!(r, Err(AnalyticsError::InvalidPeriodType));
    assert_eq!(reg.snapshot_count(), 0);
    assert_eq!(reg.record_revenue(authority(), w(1), 1000, 50, 100, 255), Err(AnalyticsError::InvalidPeriodType));
    // All four granularities are accepted.
    for (t, pt) in [(1, PERIOD_DAILY), (2, PERIOD_WEEKLY), (3, PERIOD_MONTHLY), (4, PERIOD_YEARLY)] {
        assert_eq!(reg.record_revenue(authority(), w(1), t, 1, 1, pt), Ok(()));
    }
    assert_eq!(reg.snapshot_count(), 4);
}

#[test]
fn record_revenue_by_non_authority_fails_unauthorized() {
    let mut reg = initialized(vec![w(1)]);
    let r = reg.record_revenue(w(99), w(1), 1000, 50, 100, PERIOD_DAILY);
    assert_eq!(r, Err(AnalyticsError::Unauthorized));
    assert_eq!(reg.snapshot_count(), 0);
}

#[test]
fn apply_routes_all_five_operations() {
    let mut reg = Registry::new();
    let init = Operation::Initialize { wallets: vec![w(1)], update_interval: 21600 };
    assert_eq!(reg.apply(init, authority(), 1_000_000), Ok(()));
    assert_eq!(reg.wallets(), &vec![w(1)]);

    let add = Operation::AddWallet { new_wallet: w(2) };
    assert_eq!(reg.apply(add, authority(), 1_000_001), Ok(()));
    assert_eq!(reg.wallets(), &vec![w(1), w(2)]);

    let rec = Operation::RecordRevenue {
        wallet: w(1),
        timestamp: 1000,
        sol_amount: 50,
        usdc_amount: 100,
        period_type: PERIOD_DAILY,
    };
    assert_eq!(reg.apply(rec, authority(), 1_000_002), Ok(()));
    assert_eq!(reg.snapshot_count(), 1);

    let rem = Operation::RemoveWallet { wallet_to_remove: w(2) };
    assert_eq!(reg.apply(rem, authority(), 1_000_003), Ok(()));
    assert_eq!(reg.wallets(), &vec![w(1)]);

    let upd = Operation::UpdateConfig { update_interval: 60 };
    assert_eq!(reg.apply(upd, authority(), 1_000_004), Ok(()));
    assert_eq!(reg.update_interval(), 60);
    assert_eq!(reg.last_updated(), 1_000_004);

    // The dispatcher gates mutation the same way the operations do.
    let add2 = Operation::AddWallet { new_wallet: w(3) };
    assert_eq!(reg.apply(add2, w(99), 1_000_005), Err(AnalyticsError::Unauthorized));
    assert_eq!(reg.wallets(), &vec![w(1)]);
}
