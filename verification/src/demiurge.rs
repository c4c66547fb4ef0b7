//! Demiurge Module — the accounting of human energy.
//! Demiurge decays after a 5-year Epoch. The ledger is append-only.

use vstd::prelude::*;
use uuid::Uuid;
use crate::errors::LinexusError;
use crate::identity::random_uuid;

verus! {

/// 5-year decay period in seconds.
pub const EPOCH_DECAY_SECS: u64 = 5 * 365 * 24 * 60 * 60;

/// Classes of value driving the Linexus engine.
#[derive(Debug, Clone, Copy, PartialEq, Eq, Hash, Structural)]
pub enum ValueClass {
    Pranjurity(u64),
    Supranjus(u64),
    PassiveEcological(u64),
}

impl ValueClass {
    /// The quantity of Demiurge the value carries, whatever its class.
    pub open spec fn quantity(self) -> u64 {
        match self {
            ValueClass::Pranjurity(a) => a,
            ValueClass::Supranjus(a) => a,
            ValueClass::PassiveEcological(a) => a,
        }
    }

    pub fn amount(&self) -> (r: u64)
        ensures
            r == self.quantity(),
    {
        match self {
            ValueClass::Pranjurity(a) | ValueClass::Supranjus(a) | ValueClass::PassiveEcological(a) => *a,
        }
    }
}

/// Immutable entry in the Demiurge Segmented Log.
#[derive(Debug, Clone)]
pub struct LedgerEntry {
    pub transaction_id: Uuid,
    pub timestamp: u64,
    pub node_id: Uuid,
    pub value: ValueClass,
    pub source_demand_id: Option<Uuid>,
    pub task_id: Option<Uuid>,
    pub expires_at: u64,
    pub authority_signature: String,
}

impl LedgerEntry {
    /// Whether the entry has decayed at time `t`: strictly after its expiry.
    pub open spec fn decayed_at(self, t: u64) -> bool {
        t > self.expires_at
    }

    /// The time left before expiry at time `t`, and zero once expired.
    pub open spec fn ttl_at(self, t: u64) -> u64 {
        if self.expires_at >= t {
            (self.expires_at - t) as u64
        } else {
            0
        }
    }

    /// Mints a new entry at `current_time` under a fresh random transaction
    /// identifier; the entry expires one decay epoch later.
    pub fn mint(
        node_id: Uuid,
        demand_id: Option<Uuid>,
        task_id: Option<Uuid>,
        value: ValueClass,
        current_time: u64,
        authority_sig: String,
    ) -> (e: Self)
        requires
            current_time + EPOCH_DECAY_SECS <= u64::MAX,
        ensures
            e.timestamp == current_time,
            e.node_id == node_id,
            e.value == value,
            e.source_demand_id == demand_id,
            e.task_id == task_id,
            e.expires_at == current_time + EPOCH_DECAY_SECS,
            e.authority_signature == authority_sig,
    {
        Self {
            transaction_id: random_uuid(),
            timestamp: current_time,
            node_id,
            value,
            source_demand_id: demand_id,
            task_id,
            expires_at: current_time + EPOCH_DECAY_SECS,
            authority_signature: authority_sig,
        }
    }

    pub fn is_decayed(&self, current_time: u64) -> (r: bool)
        ensures
            r == self.decayed_at(current_time),
    {
        current_time > self.expires_at
    }

    pub fn remaining_ttl(&self, current_time: u64) -> (r: u64)
        ensures
            r == self.ttl_at(current_time),
    {
        self.expires_at.saturating_sub(current_time)
    }
}

/// Aggregated view of a Node's active Demiurge balance.
#[derive(Debug, Clone)]
pub struct DemiurgeBalance {
    pub pranjurity: u64,
    pub supranjus: u64,
    pub passive_ecological: u64,
}

impl Default for DemiurgeBalance {
    fn default() -> (b: Self)
        ensures
            b.pranjurity == 0 && b.supranjus == 0 && b.passive_ecological == 0,
    {
        DemiurgeBalance { pranjurity: 0, supranjus: 0, passive_ecological: 0 }
    }
}

impl DemiurgeBalance {
    /// The sum of all three classes of value.
    pub open spec fn sum(self) -> int {
        self.pranjurity + self.supranjus + self.passive_ecological
    }

    /// Whether crediting `v` keeps its class within the range of a `u64`.
    pub open spec fn can_credit(self, v: ValueClass) -> bool {
        match v {
            ValueClass::Pranjurity(a) => self.pranjurity + a <= u64::MAX,
            ValueClass::Supranjus(a) => self.supranjus + a <= u64::MAX,
            ValueClass::PassiveEcological(a) => self.passive_ecological + a <= u64::MAX,
        }
    }

    /// The balance after `v` is added to the class it belongs to.
    pub open spec fn credited(self, v: ValueClass) -> DemiurgeBalance {
        match v {
            ValueClass::Pranjurity(a) => DemiurgeBalance { pranjurity: (self.pranjurity + a) as u64, ..self },
            ValueClass::Supranjus(a) => DemiurgeBalance { supranjus: (self.supranjus + a) as u64, ..self },
            ValueClass::PassiveEcological(a) =>
                DemiurgeBalance { passive_ecological: (self.passive_ecological + a) as u64, ..self },
        }
    }

    pub fn total(&self) -> (r: u64)
        requires
            self.sum() <= u64::MAX,
        ensures
            r == self.sum(),
    {
        self.pranjurity + self.supranjus + self.passive_ecological
    }

    /// Adds an entry's value to the balance, unless the entry has decayed at
    /// `current_time`, in which case the balance is left as it was and a
    /// ledger error is returned.
    pub fn apply_entry(&mut self, entry: &LedgerEntry, current_time: u64) -> (r: Result<(), LinexusError>)
        requires
            !entry.decayed_at(current_time) ==> old(self).can_credit(entry.value),
        ensures
            entry.decayed_at(current_time) ==> {
                &&& r matches Err(LinexusError::LedgerError(m)) && m@ == "Cannot apply decayed entry"@
                &&& *final(self) == *old(self)
            },
            !entry.decayed_at(current_time) ==> {
                &&& r is Ok
                &&& *final(self) == old(self).credited(entry.value)
            },
    {
        if entry.is_decayed(current_time) {
            return Err(LinexusError::LedgerError("Cannot apply decayed entry".to_owned()));
        }
        match &entry.value {
            ValueClass::Pranjurity(a) => self.pranjurity = self.pranjurity + *a,
            ValueClass::Supranjus(a) => self.supranjus = self.supranjus + *a,
            ValueClass::PassiveEcological(a) => self.passive_ecological = self.passive_ecological + *a,
        }
        Ok(())
    }
}

/// Demiurge cannot be hoarded beyond a 5-year epoch: an entry minted at
/// `minted_at` has decayed at `t` exactly when `t` lies more than one epoch
/// after the minting, and at the minting it has the whole epoch left.
pub proof fn lemma_entry_lives_one_epoch(entry: LedgerEntry, minted_at: u64, t: u64)
    requires
        entry.expires_at == minted_at + EPOCH_DECAY_SECS,
    ensures
        entry.decayed_at(t) <==> t > minted_at + EPOCH_DECAY_SECS,
        !entry.decayed_at(minted_at),
        entry.ttl_at(minted_at) == EPOCH_DECAY_SECS,
{
}

/// The remaining time counts down with the clock: until expiry the time and
/// the time left add up to the expiry, and a decayed entry has none left.
pub proof fn lemma_ttl_counts_down(entry: LedgerEntry, t: u64)
    ensures
        t <= entry.expires_at ==> t + entry.ttl_at(t) == entry.expires_at,
        entry.decayed_at(t) ==> entry.ttl_at(t) == 0,
{
}

/// Each class of value is credited to its own account: the account of the
/// value's class rises by its amount and the other two are untouched.
pub proof fn lemma_credit_goes_to_its_own_account(balance: DemiurgeBalance, v: ValueClass)
    requires
        balance.can_credit(v),
    ensures
        balance.credited(v).pranjurity == balance.pranjurity + if v is Pranjurity { v.quantity() } else { 0 },
        balance.credited(v).supranjus == balance.supranjus + if v is Supranjus { v.quantity() } else { 0 },
        balance.credited(v).passive_ecological == balance.passive_ecological + if v is PassiveEcological {
            v.quantity()
        } else {
            0
        },
{
}

/// Applying an entry raises the total by exactly the entry's amount.
pub proof fn lemma_credit_raises_total(balance: DemiurgeBalance, v: ValueClass)
    requires
        balance.can_credit(v),
    ensures
        balance.credited(v).sum() == balance.sum() + v.quantity(),
{
}

} // verus!
