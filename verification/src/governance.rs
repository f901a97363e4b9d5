use vstd::prelude::*;
use crate::params::PARAM_CHANGE_DELAY_SECS;
use crate::rate_limit::capped_sum;

verus! {

/// The parameters whose changes go through the time lock.
#[derive(Clone, Copy, Debug, PartialEq, Eq, Structural)]
pub enum ParamKey {
    /// The staleness window, named `stale_w` on the ledger.
    StalenessWindow,
}

impl ParamKey {
    /// The name of the parameter on the ledger.
    pub open spec fn spec_name(self) -> Seq<char> {
        match self {
            ParamKey::StalenessWindow => "stale_w"@,
        }
    }

    /// The name of the parameter on the ledger.
    pub fn name(&self) -> (s: &'static str)
        ensures
            s@ == self.spec_name(),
    {
        match self {
            ParamKey::StalenessWindow => "stale_w",
        }
    }

    /// The parameter that a ledger name stands for, if any.
    pub fn from_name(name: &str) -> (k: Option<ParamKey>)
        ensures
            k == (if name@ == ParamKey::StalenessWindow.spec_name() {
                Some(ParamKey::StalenessWindow)
            } else {
                None::<ParamKey>
            }),
    {
        let stale = "stale_w".to_owned();
        let given = name.to_owned();
        if given == stale {
            Some(ParamKey::StalenessWindow)
        } else {
            None
        }
    }
}

/// A proposed parameter value and the ledger time from which it may be applied.
#[derive(Clone, Copy, Debug, PartialEq, Eq, Structural)]
pub struct PendingChange {
    pub value: u64,
    pub apply_after: u64,
}

/// The end of the parameter time lock for a proposal made at `now`.
pub open spec fn param_unlock_time(now: u64) -> u64 {
    capped_sum(now, PARAM_CHANGE_DELAY_SECS) as u64
}

/// A time-locked proposal made at `now` for `value`.
pub fn propose_change(value: u64, now: u64) -> (p: PendingChange)
    ensures
        p == (PendingChange { value, apply_after: param_unlock_time(now) }),
{
    PendingChange { value, apply_after: now.saturating_add(PARAM_CHANGE_DELAY_SECS) }
}

/// A proposed contract upgrade: the hash of the new code and the ledger time
/// from which it may be installed.
#[derive(Clone, Debug)]
pub struct UpgradeProposal {
    pub wasm_hash: Vec<u8>,
    pub executable_after: u64,
}

/// The end of the upgrade time lock for a proposal made at `now` with `delay`.
pub open spec fn upgrade_unlock_time(now: u64, delay: u64) -> u64 {
    capped_sum(now, delay) as u64
}

} // verus!
