use vstd::prelude::*;
use crate::error::AnalyticsError;
use crate::ids::AccountId;

verus! {

/// Bytes preallocated for the singleton configuration record.
pub const CONFIG_SPACE: usize = 380;

/// Bytes of the configuration record that are not wallet entries: an 8-byte
/// record discriminator, the 32-byte authority, the 4-byte length prefix of
/// the wallet list, the 8-byte `last_updated` clock and the 8-byte
/// `update_interval`.
pub const CONFIG_HEADER_BYTES: usize = 60;

/// Bytes one tracked wallet entry occupies.
pub const WALLET_ENTRY_BYTES: usize = 32;

/// How many wallets the fixed allocation can hold. The backing record is
/// allocated once, at creation, and never resized, so this bound is hard.
pub const WALLET_CAPACITY: usize = (CONFIG_SPACE - CONFIG_HEADER_BYTES) / WALLET_ENTRY_BYTES;

/// Bytes preallocated for one revenue snapshot record: an 8-byte record
/// discriminator and the five stored fields.
pub const SNAPSHOT_SPACE: usize = 65;

/// The four snapshot granularities, as stored in `period_type`.
pub const PERIOD_DAILY: u8 = 0;
pub const PERIOD_WEEKLY: u8 = 1;
pub const PERIOD_MONTHLY: u8 = 2;
pub const PERIOD_YEARLY: u8 = 3;

/// A period type is one of the four known granularities.
pub open spec fn valid_period_type(period_type: u8) -> bool {
    period_type <= PERIOD_YEARLY
}

/// The singleton configuration record of a deployment. Exactly one exists
/// once `initialize` has succeeded; it lives at the address derived from the
/// fixed domain tag `"config"` alone.
pub struct ProtocolConfig {
    /// The only identity permitted to mutate this record or create
    /// snapshots; set at creation and never changed.
    pub authority: AccountId,
    /// The tracked wallets, in insertion order; at most [`WALLET_CAPACITY`].
    pub wallets: Vec<AccountId>,
    /// When the configuration was created or `update_config` last ran.
    pub last_updated: i64,
    /// Advisory refresh cadence in seconds; stored, never acted upon here.
    pub update_interval: u64,
}

/// The mathematical content of a [`ProtocolConfig`].
#[verifier::ext_equal]
pub struct ConfigView {
    pub authority: AccountId,
    pub wallets: Seq<AccountId>,
    pub last_updated: i64,
    pub update_interval: u64,
}

impl ConfigView {
    /// The wallet list fits the fixed allocation.
    pub open spec fn wf(self) -> bool {
        self.wallets.len() <= WALLET_CAPACITY
    }
}

impl View for ProtocolConfig {
    type V = ConfigView;

    open spec fn view(&self) -> ConfigView {
        ConfigView {
            authority: self.authority,
            wallets: self.wallets@,
            last_updated: self.last_updated,
            update_interval: self.update_interval,
        }
    }
}

/// One immutable revenue record: the revenue of one wallet over one period
/// starting at one timestamp. Its storage address is derived from the
/// domain tag `"revenue"` plus `(wallet, timestamp)`, which makes that pair
/// a uniqueness key.
#[derive(Clone, Copy, Debug, PartialEq, Eq, Structural)]
pub struct RevenueSnapshot {
    pub timestamp: i64,
    pub wallet: AccountId,
    pub sol_amount: u64,
    pub usdc_amount: u64,
    pub period_type: u8,
}

/// The index of the first entry equal to `w`, or `-1` if none is.
pub open spec fn first_index_of(s: Seq<AccountId>, w: AccountId) -> int
    decreases s.len(),
{
    if s.len() == 0 {
        -1
    } else if s[0] == w {
        0
    } else if first_index_of(s.drop_first(), w) == -1 {
        -1
    } else {
        1 + first_index_of(s.drop_first(), w)
    }
}

/// `first_index_of` finds exactly the first occurrence: it is `-1` just
/// when `w` is absent, and otherwise points at an occurrence of `w` that
/// nothing earlier matches.
pub proof fn lemma_first_index_of(s: Seq<AccountId>, w: AccountId)
    ensures
        first_index_of(s, w) == -1 <==> !s.contains(w),
        first_index_of(s, w) != -1 ==> 0 <= first_index_of(s, w) < s.len()
            && s[first_index_of(s, w)] == w,
        forall|j: int| 0 <= j < first_index_of(s, w) ==> s[j] != w,
    decreases s.len(),
{
    if s.len() == 0 {
    } else if s[0] == w {
        assert(s.contains(w));
    } else {
        let rest = s.drop_first();
        lemma_first_index_of(rest, w);
        if s.contains(w) {
            let i = choose|i: int| 0 <= i < s.len() && s[i] == w;
            assert(rest[i - 1] == w);
            assert(rest.contains(w));
        }
        if rest.contains(w) {
            assert(s[first_index_of(s, w)] == rest[first_index_of(rest, w)]);
            assert(s.contains(w));
        }
        assert forall|j: int| 0 <= j < first_index_of(s, w) implies s[j] != w by {
            if j >= 1 {
                assert(rest[j - 1] != w);
            }
        }
    }
}

/// An index that holds `w` with nothing earlier matching is the first one.
pub proof fn lemma_first_index_of_is(s: Seq<AccountId>, w: AccountId, i: int)
    requires
        0 <= i < s.len(),
        s[i] == w,
        forall|j: int| 0 <= j < i ==> s[j] != w,
    ensures
        first_index_of(s, w) == i,
{
    lemma_first_index_of(s, w);
    assert(s.contains(w));
    let f = first_index_of(s, w);
    if f < i {
        assert(s[f] != w);
    }
    if f > i {
        assert(s[i] != w);
    }
}

/// What `add_wallet` does to a configuration: the state after the call and
/// the result returned. Only the stored authority may mutate; a full list
/// rejects the entry; otherwise the wallet is appended.
pub open spec fn spec_add_wallet(c: ConfigView, caller: AccountId, new_wallet: AccountId) -> (
    ConfigView,
    Result<(), AnalyticsError>,
) {
    if caller != c.authority {
        (c, Err(AnalyticsError::Unauthorized))
    } else if c.wallets.len() >= WALLET_CAPACITY {
        (c, Err(AnalyticsError::CapacityExceeded))
    } else {
        (ConfigView { wallets: c.wallets.push(new_wallet), ..c }, Ok(()))
    }
}

/// What `remove_wallet` does to a configuration: only the stored authority
/// may mutate; a wallet that is not tracked is reported `NotFound`;
/// otherwise the first matching entry leaves the list and the order of the
/// remaining entries is kept.
pub open spec fn spec_remove_wallet(c: ConfigView, caller: AccountId, wallet_to_remove: AccountId)
    -> (ConfigView, Result<(), AnalyticsError>) {
    if caller != c.authority {
        (c, Err(AnalyticsError::Unauthorized))
    } else if !c.wallets.contains(wallet_to_remove) {
        (c, Err(AnalyticsError::NotFound))
    } else {
        (
            ConfigView {
                wallets: c.wallets.remove(first_index_of(c.wallets, wallet_to_remove)),
                ..c
            },
            Ok(()),
        )
    }
}

/// What `update_config` does to a configuration: only the stored authority
/// may mutate; the cadence is replaced and the mutation time recorded.
pub open spec fn spec_update_config(c: ConfigView, caller: AccountId, update_interval: u64, now: i64)
    -> (ConfigView, Result<(), AnalyticsError>) {
    if caller != c.authority {
        (c, Err(AnalyticsError::Unauthorized))
    } else {
        (ConfigView { update_interval, last_updated: now, ..c }, Ok(()))
    }
}

impl ProtocolConfig {
    /// Creates the configuration record as `initialize` writes it.
    pub fn create(authority: AccountId, wallets: Vec<AccountId>, update_interval: u64, now: i64)
        -> (r: ProtocolConfig)
        requires
            wallets@.len() <= WALLET_CAPACITY,
        ensures
            r@ == (ConfigView { authority, wallets: wallets@, last_updated: now, update_interval }),
            r@.wf(),
    {
        ProtocolConfig { authority, wallets, last_updated: now, update_interval }
    }

    /// Appends a wallet for the authority; rejects any other caller and a
    /// list already at capacity.
    pub fn add_wallet(&mut self, caller: AccountId, new_wallet: AccountId) -> (r: Result<
        (),
        AnalyticsError,
    >)
        requires
            old(self)@.wf(),
        ensures
            final(self)@.wf(),
            final(self)@ == spec_add_wallet(old(self)@, caller, new_wallet).0,
            r == spec_add_wallet(old(self)@, caller, new_wallet).1,
    {
        if !(caller == self.authority) {
            return Err(AnalyticsError::Unauthorized);
        }
        if self.wallets.len() >= WALLET_CAPACITY {
            return Err(AnalyticsError::CapacityExceeded);
        }
        self.wallets.push(new_wallet);
        Ok(())
    }

    /// Removes the first entry matching `wallet_to_remove` for the
    /// authority; rejects any other caller and a wallet not tracked.
    pub fn remove_wallet(&mut self, caller: AccountId, wallet_to_remove: AccountId) -> (r: Result<
        (),
        AnalyticsError,
    >)
        requires
            old(self)@.wf(),
        ensures
            final(self)@.wf(),
            final(self)@ == spec_remove_wallet(old(self)@, caller, wallet_to_remove).0,
            r == spec_remove_wallet(old(self)@, caller, wallet_to_remove).1,
    {
        if !(caller == self.authority) {
            return Err(AnalyticsError::Unauthorized);
        }
        let ghost orig = self.wallets@;
        let mut i: usize = 0;
        while i < self.wallets.len()
            invariant
                i <= self.wallets@.len(),
                old(self)@.wf(),
                *self == *old(self),
                orig == self.wallets@,
                caller == self.authority,
                forall|j: int| 0 <= j < i ==> orig[j] != wallet_to_remove,
            decreases self.wallets@.len() - i,
        {
            if self.wallets[i] == wallet_to_remove {
                proof {
                    lemma_first_index_of_is(orig, wallet_to_remove, i as int);
                    assert(orig.contains(wallet_to_remove));
                }
                self.wallets.remove(i);
                proof {
                    assert(self.wallets@.len() == orig.len() - 1) by {
                        assert(self.wallets@ == orig.remove(i as int));
                        broadcast use vstd::seq_lib::group_seq_properties;
                    }
                    assert(self@ =~= spec_remove_wallet(old(self)@, caller, wallet_to_remove).0);
                }
                return Ok(());
            }
            i += 1;
        }
        proof {
            if orig.contains(wallet_to_remove) {
                let k = choose|k: int| 0 <= k < orig.len() && orig[k] == wallet_to_remove;
                assert(orig[k] != wallet_to_remove);
            }
        }
        Err(AnalyticsError::NotFound)
    }

    /// Replaces the cadence and records the mutation time, for the
    /// authority; rejects any other caller.
    pub fn update_config(&mut self, caller: AccountId, update_interval: u64, now: i64) -> (r:
        Result<(), AnalyticsError>)
        requires
            old(self)@.wf(),
        ensures
            final(self)@.wf(),
            final(self)@ == spec_update_config(old(self)@, caller, update_interval, now).0,
            r == spec_update_config(old(self)@, caller, update_interval, now).1,
    {
        if !(caller == self.authority) {
            return Err(AnalyticsError::Unauthorized);
        }
        self.update_interval = update_interval;
        self.last_updated = now;
        Ok(())
    }
}

} // verus!
