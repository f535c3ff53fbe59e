//! The configuration record of a faucet.

use vstd::prelude::*;
use crate::identity::Identity;
use crate::model::ConfigRecord;

verus! {

/// The parameters of a faucet together with its running totals. A faucet has
/// at most one such record: it is created by `initialize` and never removed.
#[derive(Debug, PartialEq, Eq)]
pub struct FaucetConfig {
    /// The identity allowed to change the configuration.
    pub admin: Identity,
    /// The asset that is handed out. The faucet passes it on and never
    /// interprets it.
    pub token_address: Identity,
    /// The amount granted by one successful claim.
    pub distribution_amount: u64,
    /// The least number of seconds between two claims of one identity.
    pub cooldown_period: u64,
    /// The sum of all amounts granted so far.
    pub total_distributed: u64,
    /// The number of successful claims so far.
    pub distribution_count: u64,
    /// While false, every claim is rejected.
    pub is_active: bool,
}

impl View for FaucetConfig {
    type V = ConfigRecord;

    open spec fn view(&self) -> ConfigRecord {
        ConfigRecord {
            admin: self.admin@,
            token_address: self.token_address@,
            distribution_amount: self.distribution_amount as nat,
            cooldown_period: self.cooldown_period as nat,
            total_distributed: self.total_distributed as nat,
            distribution_count: self.distribution_count as nat,
            is_active: self.is_active,
        }
    }
}

impl Clone for FaucetConfig {
    fn clone(&self) -> (copy: FaucetConfig)
        ensures
            copy@ == self@,
    {
        FaucetConfig {
            admin: self.admin.clone(),
            token_address: self.token_address.clone(),
            distribution_amount: self.distribution_amount,
            cooldown_period: self.cooldown_period,
            total_distributed: self.total_distributed,
            distribution_count: self.distribution_count,
            is_active: self.is_active,
        }
    }
}

/// The view of an optional configuration.
pub open spec fn config_record(config: Option<FaucetConfig>) -> Option<ConfigRecord> {
    match config {
        Some(c) => Some(c@),
        None => None,
    }
}

/// The view of an optional setting.
pub open spec fn setting(value: Option<u64>) -> Option<nat> {
    match value {
        Some(v) => Some(v as nat),
        None => None,
    }
}

impl FaucetConfig {
    /// The configuration of a new faucet: nothing distributed yet, and the
    /// faucet switched on.
    pub fn new(
        admin: Identity,
        token_address: Identity,
        distribution_amount: u64,
        cooldown_period: u64,
    ) -> (config: FaucetConfig)
        ensures
            config@ == ConfigRecord::fresh(
                admin@,
                token_address@,
                distribution_amount as nat,
                cooldown_period as nat,
            ),
    {
        FaucetConfig {
            admin,
            token_address,
            distribution_amount,
            cooldown_period,
            total_distributed: 0,
            distribution_count: 0,
            is_active: true,
        }
    }

    /// Replaces each setting that is given and leaves every other field,
    /// the running totals among them, as it was.
    pub fn apply_settings(
        &mut self,
        new_distribution_amount: Option<u64>,
        new_cooldown_period: Option<u64>,
        new_active_status: Option<bool>,
    )
        ensures
            final(self)@ == old(self)@.with_settings(
                setting(new_distribution_amount),
                setting(new_cooldown_period),
                new_active_status,
            ),
    {
        if let Some(amount) = new_distribution_amount {
            self.distribution_amount = amount;
        }
        if let Some(period) = new_cooldown_period {
            self.cooldown_period = period;
        }
        if let Some(status) = new_active_status {
            self.is_active = status;
        }
    }

    /// Whether one more grant can be added to the running totals without a
    /// counter leaving 64 bits.
    pub fn grant_fits(&self) -> (fits: bool)
        ensures
            fits == self@.grant_fits(),
    {
        self.distribution_count < u64::MAX && self.total_distributed <= u64::MAX
            - self.distribution_amount
    }

    /// Adds one grant of `distribution_amount` to the running totals.
    pub fn record_grant(&mut self)
        requires
            old(self)@.grant_fits(),
        ensures
            final(self)@ == old(self)@.after_grant(),
    {
        self.total_distributed = self.total_distributed + self.distribution_amount;
        self.distribution_count = self.distribution_count + 1;
    }
}

} // verus!
