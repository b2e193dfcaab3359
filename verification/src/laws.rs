//! The load-bearing guarantees of the registry, each stated over the spec
//! transitions that the executable operations are proved to implement.

use vstd::prelude::*;
use crate::error::AnalyticsError;
use crate::ids::AccountId;
use crate::registry::{
    pair_recorded, spec_apply, spec_initialize, spec_record_revenue, Operation, RegistryView,
};
use crate::state::{
    first_index_of, lemma_first_index_of_is, spec_add_wallet, spec_remove_wallet,
    valid_period_type, ConfigView, CONFIG_HEADER_BYTES, CONFIG_SPACE, WALLET_CAPACITY,
    WALLET_ENTRY_BYTES,
};

verus! {

/// A deployment is initialized exactly once. From a fresh state, a wallet
/// list that fits the fixed allocation always succeeds and stores the
/// caller as authority and the list as given; afterwards every further
/// `initialize` — any caller, any arguments — fails `AlreadyInitialized`
/// and changes nothing.
pub proof fn lemma_initialize_exactly_once(
    s: RegistryView,
    caller: AccountId,
    wallets: Seq<AccountId>,
    update_interval: u64,
    now: i64,
    caller2: AccountId,
    wallets2: Seq<AccountId>,
    update_interval2: u64,
    now2: i64,
)
    requires
        !s.is_initialized(),
        wallets.len() <= WALLET_CAPACITY,
    ensures
        spec_initialize(s, caller, wallets, update_interval, now).1 == Ok::<(), AnalyticsError>(()),
        spec_initialize(s, caller, wallets, update_interval, now).0.authority() == caller,
        spec_initialize(s, caller, wallets, update_interval, now).0.config.unwrap().wallets
            == wallets,
        spec_initialize(
            spec_initialize(s, caller, wallets, update_interval, now).0,
            caller2,
            wallets2,
            update_interval2,
            now2,
        ).0 == spec_initialize(s, caller, wallets, update_interval, now).0,
        spec_initialize(
            spec_initialize(s, caller, wallets, update_interval, now).0,
            caller2,
            wallets2,
            update_interval2,
            now2,
        ).1 == Err::<(), AnalyticsError>(AnalyticsError::AlreadyInitialized),
{
}

/// Adding a wallet that is not yet tracked and then removing it restores
/// the wallet list exactly as it was, every remaining entry in its old
/// place. (With the wallet already tracked, removal takes the earlier
/// occurrence instead and the list ends up reordered, so that case is
/// excluded here.)
pub proof fn lemma_add_then_remove_restores(c: ConfigView, caller: AccountId, w: AccountId)
    requires
        caller == c.authority,
        c.wallets.len() < WALLET_CAPACITY,
        !c.wallets.contains(w),
    ensures
        spec_add_wallet(c, caller, w).1 == Ok::<(), AnalyticsError>(()),
        spec_remove_wallet(spec_add_wallet(c, caller, w).0, caller, w).1 == Ok::<
            (),
            AnalyticsError,
        >(()),
        spec_remove_wallet(spec_add_wallet(c, caller, w).0, caller, w).0 == c,
{
    let c1 = spec_add_wallet(c, caller, w).0;
    let n = c.wallets.len() as int;
    assert(c1.wallets == c.wallets.push(w));
    assert(c1.wallets[n] == w);
    assert(c1.wallets.contains(w));
    assert forall|j: int| 0 <= j < n implies c1.wallets[j] != w by {
        if c.wallets[j] == w {
            assert(c.wallets.contains(w));
        }
    }
    lemma_first_index_of_is(c1.wallets, w, n);
    assert(first_index_of(c1.wallets, w) == n);
    assert(c1.wallets.remove(n) =~= c.wallets);
    assert(spec_remove_wallet(c1, caller, w).0 =~= c);
}

/// A `(wallet, timestamp)` pair is recorded at most once: after a
/// successful recording, a second recording for the same pair — whatever
/// amounts or period it carries — always fails `AlreadyExists` and leaves
/// everything unchanged.
pub proof fn lemma_pair_recorded_once(
    s: RegistryView,
    caller: AccountId,
    wallet: AccountId,
    timestamp: i64,
    sol1: u64,
    usdc1: u64,
    pt1: u8,
    sol2: u64,
    usdc2: u64,
    pt2: u8,
)
    requires
        s.is_initialized(),
        caller == s.authority(),
        valid_period_type(pt1),
        !pair_recorded(s.snapshots, wallet, timestamp),
    ensures
        spec_record_revenue(s, caller, wallet, timestamp, sol1, usdc1, pt1).1 == Ok::<
            (),
            AnalyticsError,
        >(()),
        spec_record_revenue(
            spec_record_revenue(s, caller, wallet, timestamp, sol1, usdc1, pt1).0,
            caller,
            wallet,
            timestamp,
            sol2,
            usdc2,
            pt2,
        ).0 == spec_record_revenue(s, caller, wallet, timestamp, sol1, usdc1, pt1).0,
        spec_record_revenue(
            spec_record_revenue(s, caller, wallet, timestamp, sol1, usdc1, pt1).0,
            caller,
            wallet,
            timestamp,
            sol2,
            usdc2,
            pt2,
        ).1 == Err::<(), AnalyticsError>(AnalyticsError::AlreadyExists),
{
    let s1 = spec_record_revenue(s, caller, wallet, timestamp, sol1, usdc1, pt1).0;
    let n = s.snapshots.len() as int;
    assert(s1.snapshots[n].wallet == wallet && s1.snapshots[n].timestamp == timestamp);
    assert(pair_recorded(s1.snapshots, wallet, timestamp));
}

/// Recordings for the same wallet at distinct timestamps are independent:
/// recording at one fresh timestamp never blocks recording at another.
pub proof fn lemma_distinct_timestamps_independent(
    s: RegistryView,
    caller: AccountId,
    wallet: AccountId,
    t1: i64,
    t2: i64,
    sol1: u64,
    usdc1: u64,
    pt1: u8,
    sol2: u64,
    usdc2: u64,
    pt2: u8,
)
    requires
        s.is_initialized(),
        caller == s.authority(),
        valid_period_type(pt1),
        valid_period_type(pt2),
        t1 != t2,
        !pair_recorded(s.snapshots, wallet, t1),
        !pair_recorded(s.snapshots, wallet, t2),
    ensures
        spec_record_revenue(
            spec_record_revenue(s, caller, wallet, t1, sol1, usdc1, pt1).0,
            caller,
            wallet,
            t2,
            sol2,
            usdc2,
            pt2,
        ).1 == Ok::<(), AnalyticsError>(()),
{
    let s1 = spec_record_revenue(s, caller, wallet, t1, sol1, usdc1, pt1).0;
    let n = s.snapshots.len() as int;
    if pair_recorded(s1.snapshots, wallet, t2) {
        let k = choose|k: int|
            0 <= k < s1.snapshots.len() && s1.snapshots[k].wallet == wallet
                && s1.snapshots[k].timestamp == t2;
        if k < n {
            assert(pair_recorded(s.snapshots, wallet, t2));
        } else {
            assert(s1.snapshots[k].timestamp == t1);
        }
    }
}

/// Only the stored authority can mutate: for every operation other than
/// `Initialize`, any other caller always fails `Unauthorized` and the
/// deployment is left exactly as it was.
pub proof fn lemma_only_authority_mutates(
    s: RegistryView,
    op: Operation,
    caller: AccountId,
    now: i64,
)
    requires
        s.is_initialized(),
        !(op is Initialize),
        caller != s.authority(),
    ensures
        spec_apply(s, op, caller, now).0 == s,
        spec_apply(s, op, caller, now).1 == Err::<(), AnalyticsError>(AnalyticsError::Unauthorized),
{
    assert(spec_apply(s, op, caller, now).0 =~= s);
}

/// The capacity bound is hard: with the wallet list at its fixed bound,
/// even the authority's `add_wallet` always fails `CapacityExceeded` and
/// changes nothing.
pub proof fn lemma_capacity_is_hard(c: ConfigView, caller: AccountId, w: AccountId)
    requires
        caller == c.authority,
        c.wallets.len() >= WALLET_CAPACITY,
    ensures
        spec_add_wallet(c, caller, w).0 == c,
        spec_add_wallet(c, caller, w).1 == Err::<(), AnalyticsError>(
            AnalyticsError::CapacityExceeded,
        ),
{
}

/// The capacity is exactly what the fixed allocation admits: the bytes
/// left after the fixed header, divided by the size of one entry — ten
/// wallets for the default allocation.
pub proof fn lemma_capacity_value()
    ensures
        WALLET_CAPACITY == (CONFIG_SPACE - CONFIG_HEADER_BYTES) as int / WALLET_ENTRY_BYTES as int,
        WALLET_CAPACITY == 10,
{
}

/// Recording accepts exactly the four known granularities: for the
/// authority and a fresh pair, a period type outside them always fails
/// `InvalidPeriodType` with nothing changed, and any of the four succeeds.
/// (On a pair already recorded the collision is reported first.)
pub proof fn lemma_period_type_gate(
    s: RegistryView,
    caller: AccountId,
    wallet: AccountId,
    timestamp: i64,
    sol_amount: u64,
    usdc_amount: u64,
    period_type: u8,
)
    requires
        s.is_initialized(),
        caller == s.authority(),
        !pair_recorded(s.snapshots, wallet, timestamp),
    ensures
        !valid_period_type(period_type) ==> spec_record_revenue(
            s,
            caller,
            wallet,
            timestamp,
            sol_amount,
            usdc_amount,
            period_type,
        ) == (s, Err::<(), AnalyticsError>(AnalyticsError::InvalidPeriodType)),
        valid_period_type(period_type) && !pair_recorded(s.snapshots, wallet, timestamp)
            ==> spec_record_revenue(
            s,
            caller,
            wallet,
            timestamp,
            sol_amount,
            usdc_amount,
            period_type,
        ).1 == Ok::<(), AnalyticsError>(()),
{
}

/// The ledger is append-only and snapshots are immutable: whatever
/// operation runs, every snapshot already recorded is still there,
/// unchanged, at its position.
pub proof fn lemma_snapshots_append_only(
    s: RegistryView,
    op: Operation,
    caller: AccountId,
    now: i64,
)
    requires
        op is Initialize || s.is_initialized(),
    ensures
        spec_apply(s, op, caller, now).0.snapshots.len() >= s.snapshots.len(),
        forall|i: int|
            0 <= i < s.snapshots.len() ==> spec_apply(s, op, caller, now).0.snapshots[i]
                == s.snapshots[i],
{
}

/// The authority is fixed at creation: no operation on an initialized
/// deployment ever changes it, and none uninitializes the deployment.
pub proof fn lemma_authority_immutable(
    s: RegistryView,
    op: Operation,
    caller: AccountId,
    now: i64,
)
    requires
        s.is_initialized(),
    ensures
        spec_apply(s, op, caller, now).0.is_initialized(),
        spec_apply(s, op, caller, now).0.authority() == s.authority(),
{
}

} // verus!
