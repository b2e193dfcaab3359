use vstd::prelude::*;
use crate::error::AnalyticsError;
use crate::ids::AccountId;
use crate::state::{
    spec_add_wallet, spec_remove_wallet, spec_update_config, valid_period_type, ConfigView,
    ProtocolConfig, RevenueSnapshot, WALLET_CAPACITY,
};

verus! {

/// The whole persistent state of one deployment: the singleton
/// configuration record, present once `initialize` has succeeded, and the
/// append-only ledger of revenue snapshots in creation order.
pub struct Registry {
    config: Option<ProtocolConfig>,
    snapshots: Vec<RevenueSnapshot>,
}

/// The mathematical content of a [`Registry`].
#[verifier::ext_equal]
pub struct RegistryView {
    pub config: Option<ConfigView>,
    pub snapshots: Seq<RevenueSnapshot>,
}

/// Some snapshot for `wallet` at exactly `timestamp` is already recorded.
/// The pair is the uniqueness key of the ledger: it determines the derived
/// storage address, so a second record for it collides.
pub open spec fn pair_recorded(
    snapshots: Seq<RevenueSnapshot>,
    wallet: AccountId,
    timestamp: i64,
) -> bool {
    exists|i: int|
        0 <= i < snapshots.len() && snapshots[i].wallet == wallet && snapshots[i].timestamp
            == timestamp
}

impl RegistryView {
    /// The configuration record exists: `initialize` has succeeded.
    pub open spec fn is_initialized(self) -> bool {
        self.config is Some
    }

    /// The stored authority, the one identity allowed to mutate.
    pub open spec fn authority(self) -> AccountId
        recommends
            self.is_initialized(),
    {
        self.config.unwrap().authority
    }

    /// Well-formedness of a deployment: the wallet list fits its fixed
    /// allocation, no `(wallet, timestamp)` pair is recorded twice, and
    /// every stored period type is one of the four known granularities.
    pub open spec fn wf(self) -> bool {
        &&& (self.config is Some ==> self.config.unwrap().wf())
        &&& forall|i: int, j: int|
            0 <= i < j < self.snapshots.len() ==> !(self.snapshots[i].wallet
                == self.snapshots[j].wallet && self.snapshots[i].timestamp
                == self.snapshots[j].timestamp)
        &&& forall|i: int|
            0 <= i < self.snapshots.len() ==> valid_period_type(self.snapshots[i].period_type)
    }
}

impl View for Registry {
    type V = RegistryView;

    closed spec fn view(&self) -> RegistryView {
        RegistryView {
            config: match self.config {
                Some(c) => Some(c@),
                None => None,
            },
            snapshots: self.snapshots@,
        }
    }
}

/// What `initialize` does to a deployment: it creates the singleton
/// configuration at the config address, which fails as a collision if that
/// address is already occupied, and rejects a wallet list that cannot fit
/// the fixed allocation. The caller becomes the authority unconditionally:
/// creation is first-writer-wins.
pub open spec fn spec_initialize(
    s: RegistryView,
    caller: AccountId,
    wallets: Seq<AccountId>,
    update_interval: u64,
    now: i64,
) -> (RegistryView, Result<(), AnalyticsError>) {
    if s.config is Some {
        (s, Err(AnalyticsError::AlreadyInitialized))
    } else if wallets.len() > WALLET_CAPACITY {
        (s, Err(AnalyticsError::CapacityExceeded))
    } else {
        (
            RegistryView {
                config: Some(
                    ConfigView { authority: caller, wallets, last_updated: now, update_interval },
                ),
                ..s
            },
            Ok(()),
        )
    }
}

/// What `record_revenue` does to a deployment: only the stored authority
/// may record; a pair already recorded collides at its derived address and
/// is rejected before anything else about the record is judged; the period
/// type must be one of the four known granularities. On success the new
/// snapshot is appended and is immutable thereafter: no operation ever
/// changes or removes it.
pub open spec fn spec_record_revenue(
    s: RegistryView,
    caller: AccountId,
    wallet: AccountId,
    timestamp: i64,
    sol_amount: u64,
    usdc_amount: u64,
    period_type: u8,
) -> (RegistryView, Result<(), AnalyticsError>)
    recommends
        s.is_initialized(),
{
    if caller != s.authority() {
        (s, Err(AnalyticsError::Unauthorized))
    } else if pair_recorded(s.snapshots, wallet, timestamp) {
        (s, Err(AnalyticsError::AlreadyExists))
    } else if !valid_period_type(period_type) {
        (s, Err(AnalyticsError::InvalidPeriodType))
    } else {
        (
            RegistryView {
                snapshots: s.snapshots.push(
                    RevenueSnapshot { timestamp, wallet, sol_amount, usdc_amount, period_type },
                ),
                ..s
            },
            Ok(()),
        )
    }
}

/// One of the five external operations, with the data it carries. The
/// caller identity and the clock reading are supplied separately by the
/// surrounding environment.
pub enum Operation {
    Initialize { wallets: Vec<AccountId>, update_interval: u64 },
    AddWallet { new_wallet: AccountId },
    RemoveWallet { wallet_to_remove: AccountId },
    RecordRevenue {
        wallet: AccountId,
        timestamp: i64,
        sol_amount: u64,
        usdc_amount: u64,
        period_type: u8,
    },
    UpdateConfig { update_interval: u64 },
}

/// What dispatching one operation does to a deployment. Each operation is
/// atomic: it either commits the single change described here or leaves
/// the state untouched and reports why.
pub open spec fn spec_apply(s: RegistryView, op: Operation, caller: AccountId, now: i64) -> (
    RegistryView,
    Result<(), AnalyticsError>,
)
    recommends
        op is Initialize || s.is_initialized(),
{
    match op {
        Operation::Initialize { wallets, update_interval } => spec_initialize(
            s,
            caller,
            wallets@,
            update_interval,
            now,
        ),
        Operation::AddWallet { new_wallet } => {
            let step = spec_add_wallet(s.config.unwrap(), caller, new_wallet);
            (RegistryView { config: Some(step.0), ..s }, step.1)
        },
        Operation::RemoveWallet { wallet_to_remove } => {
            let step = spec_remove_wallet(s.config.unwrap(), caller, wallet_to_remove);
            (RegistryView { config: Some(step.0), ..s }, step.1)
        },
        Operation::RecordRevenue { wallet, timestamp, sol_amount, usdc_amount, period_type } =>
            spec_record_revenue(s, caller, wallet, timestamp, sol_amount, usdc_amount, period_type),
        Operation::UpdateConfig { update_interval } => {
            let step = spec_update_config(s.config.unwrap(), caller, update_interval, now);
            (RegistryView { config: Some(step.0), ..s }, step.1)
        },
    }
}

impl Registry {
    /// A fresh deployment: no configuration record, no snapshots.
    pub fn new() -> (r: Registry)
        ensures
            r@ == (RegistryView { config: None, snapshots: Seq::<RevenueSnapshot>::empty() }),
            r@.wf(),
    {
        let r = Registry { config: None, snapshots: Vec::new() };
        proof {
            assert(r@ =~= RegistryView {
                config: None,
                snapshots: Seq::<RevenueSnapshot>::empty(),
            });
        }
        r
    }

    /// Creates the singleton configuration; see [`spec_initialize`] for the
    /// exact outcome on every input.
    pub fn initialize(
        &mut self,
        caller: AccountId,
        wallets: Vec<AccountId>,
        update_interval: u64,
        now: i64,
    ) -> (r: Result<(), AnalyticsError>)
        requires
            old(self)@.wf(),
        ensures
            final(self)@.wf(),
            final(self)@ == spec_initialize(old(self)@, caller, wallets@, update_interval, now).0,
            r == spec_initialize(old(self)@, caller, wallets@, update_interval, now).1,
    {
        if self.config.is_some() {
            return Err(AnalyticsError::AlreadyInitialized);
        }
        if wallets.len() > WALLET_CAPACITY {
            return Err(AnalyticsError::CapacityExceeded);
        }
        self.config = Some(ProtocolConfig::create(caller, wallets, update_interval, now));
        proof {
            assert(self@ =~= spec_initialize(old(self)@, caller, wallets@, update_interval, now).0);
        }
        Ok(())
    }

    /// Appends a wallet to the tracked list; see
    /// [`spec_add_wallet`](crate::state::spec_add_wallet) for the exact
    /// outcome on every input.
    pub fn add_wallet(&mut self, caller: AccountId, new_wallet: AccountId) -> (r: Result<
        (),
        AnalyticsError,
    >)
        requires
            old(self)@.wf(),
            old(self)@.is_initialized(),
        ensures
            final(self)@.wf(),
            final(self)@.is_initialized(),
            final(self)@.snapshots == old(self)@.snapshots,
            final(self)@.config == Some(
                spec_add_wallet(old(self)@.config.unwrap(), caller, new_wallet).0,
            ),
            r == spec_add_wallet(old(self)@.config.unwrap(), caller, new_wallet).1,
    {
        let mut cfg = self.config.take().unwrap();
        let r = cfg.add_wallet(caller, new_wallet);
        self.config = Some(cfg);
        proof {
            assert(self@.snapshots == old(self)@.snapshots);
            assert(self@.config.unwrap().wf());
            assert(self@.wf());
        }
        r
    }

    /// Removes the first tracked entry equal to the given wallet; see
    /// [`spec_remove_wallet`](crate::state::spec_remove_wallet) for the
    /// exact outcome on every input.
    pub fn remove_wallet(&mut self, caller: AccountId, wallet_to_remove: AccountId) -> (r: Result<
        (),
        AnalyticsError,
    >)
        requires
            old(self)@.wf(),
            old(self)@.is_initialized(),
        ensures
            final(self)@.wf(),
            final(self)@.is_initialized(),
            final(self)@.snapshots == old(self)@.snapshots,
            final(self)@.config == Some(
                spec_remove_wallet(old(self)@.config.unwrap(), caller, wallet_to_remove).0,
            ),
            r == spec_remove_wallet(old(self)@.config.unwrap(), caller, wallet_to_remove).1,
    {
        let mut cfg = self.config.take().unwrap();
        let r = cfg.remove_wallet(caller, wallet_to_remove);
        self.config = Some(cfg);
        proof {
            assert(self@.snapshots == old(self)@.snapshots);
            assert(self@.config.unwrap().wf());
            assert(self@.wf());
        }
        r
    }

    /// Replaces the advisory cadence; see
    /// [`spec_update_config`](crate::state::spec_update_config) for the
    /// exact outcome on every input.
    pub fn update_config(&mut self, caller: AccountId, update_interval: u64, now: i64) -> (r:
        Result<(), AnalyticsError>)
        requires
            old(self)@.wf(),
            old(self)@.is_initialized(),
        ensures
            final(self)@.wf(),
            final(self)@.is_initialized(),
            final(self)@.snapshots == old(self)@.snapshots,
            final(self)@.config == Some(
                spec_update_config(old(self)@.config.unwrap(), caller, update_interval, now).0,
            ),
            r == spec_update_config(old(self)@.config.unwrap(), caller, update_interval, now).1,
    {
        let mut cfg = self.config.take().unwrap();
        let r = cfg.update_config(caller, update_interval, now);
        self.config = Some(cfg);
        proof {
            assert(self@.snapshots == old(self)@.snapshots);
            assert(self@.config.unwrap().wf());
            assert(self@.wf());
        }
        r
    }

    /// Records one revenue snapshot; see [`spec_record_revenue`] for the
    /// exact outcome on every input.
    pub fn record_revenue(
        &mut self,
        caller: AccountId,
        wallet: AccountId,
        timestamp: i64,
        sol_amount: u64,
        usdc_amount: u64,
        period_type: u8,
    ) -> (r: Result<(), AnalyticsError>)
        requires
            old(self)@.wf(),
            old(self)@.is_initialized(),
        ensures
            final(self)@.wf(),
            final(self)@.is_initialized(),
            final(self)@ == spec_record_revenue(
                old(self)@,
                caller,
                wallet,
                timestamp,
                sol_amount,
                usdc_amount,
                period_type,
            ).0,
            r == spec_record_revenue(
                old(self)@,
                caller,
                wallet,
                timestamp,
                sol_amount,
                usdc_amount,
                period_type,
            ).1,
    {
        let authorized = match &self.config {
            Some(cfg) => caller == cfg.authority,
            None => false,
        };
        if !authorized {
            return Err(AnalyticsError::Unauthorized);
        }
        let ghost orig = self.snapshots@;
        let mut i: usize = 0;
        while i < self.snapshots.len()
            invariant
                i <= self.snapshots@.len(),
                old(self)@.wf(),
                old(self)@.is_initialized(),
                caller == old(self)@.authority(),
                *self == *old(self),
                orig == self.snapshots@,
                forall|j: int|
                    0 <= j < i ==> !(orig[j].wallet == wallet && orig[j].timestamp == timestamp),
            decreases self.snapshots@.len() - i,
        {
            let s = &self.snapshots[i];
            if s.wallet == wallet && s.timestamp == timestamp {
                proof {
                    assert(pair_recorded(orig, wallet, timestamp));
                }
                return Err(AnalyticsError::AlreadyExists);
            }
            i += 1;
        }
        proof {
            if pair_recorded(orig, wallet, timestamp) {
                let k = choose|k: int|
                    0 <= k < orig.len() && orig[k].wallet == wallet && orig[k].timestamp
                        == timestamp;
                assert(!(orig[k].wallet == wallet && orig[k].timestamp == timestamp));
            }
        }
        if period_type > crate::state::PERIOD_YEARLY {
            return Err(AnalyticsError::InvalidPeriodType);
        }
        self.snapshots.push(
            RevenueSnapshot { timestamp, wallet, sol_amount, usdc_amount, period_type },
        );
        proof {
            assert(self@ =~= spec_record_revenue(
                old(self)@,
                caller,
                wallet,
                timestamp,
                sol_amount,
                usdc_amount,
                period_type,
            ).0);
        }
        Ok(())
    }

    /// Routes one external operation to the component that owns it. Every
    /// operation except `Initialize` expects an initialized deployment.
    pub fn apply(&mut self, op: Operation, caller: AccountId, now: i64) -> (r: Result<
        (),
        AnalyticsError,
    >)
        requires
            old(self)@.wf(),
            op is Initialize || old(self)@.is_initialized(),
        ensures
            final(self)@.wf(),
            final(self)@ == spec_apply(old(self)@, op, caller, now).0,
            r == spec_apply(old(self)@, op, caller, now).1,
    {
        match op {
            Operation::Initialize { wallets, update_interval } => {
                self.initialize(caller, wallets, update_interval, now)
            },
            Operation::AddWallet { new_wallet } => {
                let r = self.add_wallet(caller, new_wallet);
                proof {
                    assert(self@ =~= spec_apply(old(self)@, op, caller, now).0);
                }
                r
            },
            Operation::RemoveWallet { wallet_to_remove } => {
                let r = self.remove_wallet(caller, wallet_to_remove);
                proof {
                    assert(self@ =~= spec_apply(old(self)@, op, caller, now).0);
                }
                r
            },
            Operation::RecordRevenue { wallet, timestamp, sol_amount, usdc_amount, period_type } => {
                self.record_revenue(caller, wallet, timestamp, sol_amount, usdc_amount, period_type)
            },
            Operation::UpdateConfig { update_interval } => {
                let r = self.update_config(caller, update_interval, now);
                proof {
                    assert(self@ =~= spec_apply(old(self)@, op, caller, now).0);
                }
                r
            },
        }
    }

    /// Whether `initialize` has succeeded on this deployment.
    pub fn is_initialized(&self) -> (r: bool)
        ensures
            r == self@.is_initialized(),
    {
        self.config.is_some()
    }

    /// The stored authority.
    pub fn authority(&self) -> (r: AccountId)
        requires
            self@.is_initialized(),
        ensures
            r == self@.authority(),
    {
        match &self.config {
            Some(cfg) => cfg.authority,
            None => AccountId::new(0, 0, 0, 0),
        }
    }

    /// The tracked wallets, in insertion order.
    pub fn wallets(&self) -> (r: &Vec<AccountId>)
        requires
            self@.is_initialized(),
        ensures
            r@ == self@.config.unwrap().wallets,
    {
        match &self.config {
            Some(cfg) => &cfg.wallets,
            None => unreached(),
        }
    }

    /// The stored advisory cadence.
    pub fn update_interval(&self) -> (r: u64)
        requires
            self@.is_initialized(),
        ensures
            r == self@.config.unwrap().update_interval,
    {
        match &self.config {
            Some(cfg) => cfg.update_interval,
            None => 0,
        }
    }

    /// When the configuration was created or last mutated by
    /// `update_config`.
    pub fn last_updated(&self) -> (r: i64)
        requires
            self@.is_initialized(),
        ensures
            r == self@.config.unwrap().last_updated,
    {
        match &self.config {
            Some(cfg) => cfg.last_updated,
            None => 0,
        }
    }

    /// How many snapshots have been recorded so far.
    pub fn snapshot_count(&self) -> (r: usize)
        ensures
            r == self@.snapshots.len(),
    {
        self.snapshots.len()
    }

    /// The snapshot recorded for `wallet` at exactly `timestamp`, if one is.
    pub fn find_snapshot(&self, wallet: AccountId, timestamp: i64) -> (r: Option<RevenueSnapshot>)
        ensures
            (r is Some) <==> pair_recorded(self@.snapshots, wallet, timestamp),
            r matches Some(s) ==> s.wallet == wallet && s.timestamp == timestamp
                && self@.snapshots.contains(s),
    {
        let mut i: usize = 0;
        while i < self.snapshots.len()
            invariant
                i <= self@.snapshots.len(),
                forall|j: int|
                    0 <= j < i ==> !(self@.snapshots[j].wallet == wallet
                        && self@.snapshots[j].timestamp == timestamp),
            decreases self@.snapshots.len() - i,
        {
            let s = self.snapshots[i];
            if s.wallet == wallet && s.timestamp == timestamp {
                proof {
                    assert(pair_recorded(self@.snapshots, wallet, timestamp));
                    assert(self@.snapshots.contains(s));
                }
                return Some(s);
            }
            i += 1;
        }
        proof {
            if pair_recorded(self@.snapshots, wallet, timestamp) {
                let k = choose|k: int|
                    0 <= k < self@.snapshots.len() && self@.snapshots[k].wallet == wallet
                        && self@.snapshots[k].timestamp == timestamp;
                assert(!(self@.snapshots[k].wallet == wallet && self@.snapshots[k].timestamp
                    == timestamp));
            }
        }
        None
    }
}

} // verus!
