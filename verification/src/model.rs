//! The mathematical model of the faucet: records with unbounded counters, a
//! state made of the configuration record and one claim record per identity,
//! and the effect of each operation on that state.
//!
//! The contract of every executable operation is stated over the functions
//! of this module, and the laws of the faucet are proved about them.

use vstd::prelude::*;
use crate::error::FaucetError;

verus! {

/// The configuration of a faucet together with its running totals.
pub struct ConfigRecord {
    /// The identity allowed to change the configuration.
    pub admin: Seq<char>,
    /// The asset that is handed out.
    pub token_address: Seq<char>,
    /// The amount granted by one successful claim.
    pub distribution_amount: nat,
    /// The least number of seconds between two claims of one identity.
    pub cooldown_period: nat,
    /// The sum of all amounts granted so far.
    pub total_distributed: nat,
    /// The number of successful claims so far.
    pub distribution_count: nat,
    /// While false, every claim is rejected.
    pub is_active: bool,
}

/// The claim history of one identity.
pub struct ClaimRecord {
    /// The identity that the record belongs to.
    pub user: Seq<char>,
    /// The ledger time of the latest successful claim; 0 stands for "never".
    pub last_claim_timestamp: nat,
    /// The number of successful claims of this identity.
    pub total_claims: nat,
    /// The sum of the amounts granted to this identity.
    pub total_amount: nat,
}

/// The whole state of a faucet.
#[verifier::ext_equal]
pub struct FaucetState {
    /// The configuration record; `None` until the faucet is initialized.
    pub config: Option<ConfigRecord>,
    /// The claim records that exist, by identity.
    pub claims: Map<Seq<char>, ClaimRecord>,
}

/// One call of a state-changing operation, with its arguments.
pub enum Operation {
    /// `initialize` with the given parameters.
    Initialize {
        admin: Seq<char>,
        token_address: Seq<char>,
        distribution_amount: nat,
        cooldown_period: nat,
    },
    /// `request_tokens` for `user` at time `now`.
    Request { user: Seq<char>, now: nat },
    /// `update_config` on behalf of `admin`.
    Update {
        admin: Seq<char>,
        new_distribution_amount: Option<nat>,
        new_cooldown_period: Option<nat>,
        new_active_status: Option<bool>,
    },
}

impl ConfigRecord {
    /// The configuration that `initialize` creates: nothing distributed yet,
    /// and the faucet switched on.
    pub open spec fn fresh(
        admin: Seq<char>,
        token_address: Seq<char>,
        distribution_amount: nat,
        cooldown_period: nat,
    ) -> ConfigRecord {
        ConfigRecord {
            admin,
            token_address,
            distribution_amount,
            cooldown_period,
            total_distributed: 0,
            distribution_count: 0,
            is_active: true,
        }
    }

    /// The configuration after one more grant of `distribution_amount`.
    pub open spec fn after_grant(self) -> ConfigRecord {
        ConfigRecord {
            total_distributed: self.total_distributed + self.distribution_amount,
            distribution_count: self.distribution_count + 1,
            ..self
        }
    }

    /// The configuration with each given setting replaced and every other
    /// field, the running totals among them, kept.
    pub open spec fn with_settings(
        self,
        new_distribution_amount: Option<nat>,
        new_cooldown_period: Option<nat>,
        new_active_status: Option<bool>,
    ) -> ConfigRecord {
        ConfigRecord {
            distribution_amount: match new_distribution_amount {
                Some(amount) => amount,
                None => self.distribution_amount,
            },
            cooldown_period: match new_cooldown_period {
                Some(period) => period,
                None => self.cooldown_period,
            },
            is_active: match new_active_status {
                Some(status) => status,
                None => self.is_active,
            },
            ..self
        }
    }

    /// Whether the running totals still fit in 64 bits after one more grant.
    pub open spec fn grant_fits(self) -> bool {
        &&& self.total_distributed + self.distribution_amount <= u64::MAX
        &&& self.distribution_count + 1 <= u64::MAX
    }
}

impl ClaimRecord {
    /// The record of an identity that has never claimed.
    pub open spec fn fresh(user: Seq<char>) -> ClaimRecord {
        ClaimRecord { user, last_claim_timestamp: 0, total_claims: 0, total_amount: 0 }
    }

    /// Whether a claim at time `now` falls inside the cooldown window: the
    /// identity has claimed before, and fewer than `cooldown_period` seconds
    /// lie between that claim and `now`. A clock that reads earlier than the
    /// latest claim is inside the window as well. A latest claim at time 0
    /// cannot be told from no claim at all, so it never blocks.
    pub open spec fn cooling_down(self, now: nat, cooldown_period: nat) -> bool {
        self.last_claim_timestamp > 0 && now < self.last_claim_timestamp + cooldown_period
    }

    /// The record after a grant of `amount` at time `now`.
    pub open spec fn after_grant(self, now: nat, amount: nat) -> ClaimRecord {
        ClaimRecord {
            user: self.user,
            last_claim_timestamp: now,
            total_claims: self.total_claims + 1,
            total_amount: self.total_amount + amount,
        }
    }

    /// Whether the counters of the record still fit in 64 bits after a grant
    /// of `amount`.
    pub open spec fn grant_fits(self, amount: nat) -> bool {
        &&& self.total_claims + 1 <= u64::MAX
        &&& self.total_amount + amount <= u64::MAX
    }
}

impl FaucetState {
    /// The state before `initialize`: no configuration, no claim records.
    pub open spec fn uninitialized() -> FaucetState {
        FaucetState { config: None, claims: Map::empty() }
    }

    /// The state that holds the given configuration, if any, and the given
    /// claim record, if any, and nothing else.
    pub open spec fn holding(config: Option<ConfigRecord>, claim: Option<ClaimRecord>) -> FaucetState {
        FaucetState {
            config,
            claims: match claim {
                Some(record) => Map::empty().insert(record.user, record),
                None => Map::empty(),
            },
        }
    }

    /// The claim record of `user`, or the zero record if none exists.
    pub open spec fn claim_of(self, user: Seq<char>) -> ClaimRecord {
        if self.claims.contains_key(user) {
            self.claims[user]
        } else {
            ClaimRecord::fresh(user)
        }
    }

    /// How `initialize` ends: it is rejected once a configuration exists,
    /// whatever the arguments.
    pub open spec fn initialize_result(self) -> Result<(), FaucetError> {
        if self.config is Some {
            Err(FaucetError::AlreadyInitialized)
        } else {
            Ok(())
        }
    }

    /// The state after `initialize`.
    pub open spec fn after_initialize(
        self,
        admin: Seq<char>,
        token_address: Seq<char>,
        distribution_amount: nat,
        cooldown_period: nat,
    ) -> FaucetState {
        if self.initialize_result() is Ok {
            FaucetState {
                config: Some(
                    ConfigRecord::fresh(admin, token_address, distribution_amount, cooldown_period),
                ),
                claims: self.claims,
            }
        } else {
            self
        }
    }

    /// How a claim of `user` at time `now` ends: with the granted amount, or
    /// with the first of the rejections that applies.
    pub open spec fn request_result(self, user: Seq<char>, now: nat) -> Result<nat, FaucetError> {
        match self.config {
            None => Err(FaucetError::NotInitialized),
            Some(config) => {
                if !config.is_active {
                    Err(FaucetError::FaucetInactive)
                } else if self.claim_of(user).cooling_down(now, config.cooldown_period) {
                    Err(FaucetError::CooldownActive)
                } else {
                    Ok(config.distribution_amount)
                }
            },
        }
    }

    /// The state after a claim of `user` at time `now`: a granted claim is
    /// recorded with the identity and in the running totals, a rejected one
    /// leaves the state as it was.
    pub open spec fn after_request(self, user: Seq<char>, now: nat) -> FaucetState {
        match self.request_result(user, now) {
            Ok(amount) => FaucetState {
                config: Some(self.config->0.after_grant()),
                claims: self.claims.insert(user, self.claim_of(user).after_grant(now, amount)),
            },
            Err(_) => self,
        }
    }

    /// Whether the counters that a claim of `user` at time `now` would
    /// raise still fit in 64 bits afterwards. A rejected claim raises none.
    pub open spec fn request_fits(self, user: Seq<char>, now: nat) -> bool {
        self.request_result(user, now) is Ok ==> {
            &&& self.config->0.grant_fits()
            &&& self.claim_of(user).grant_fits(self.config->0.distribution_amount)
        }
    }

    /// How `update_config` ends when `admin` is the authenticated caller.
    pub open spec fn update_result(self, admin: Seq<char>) -> Result<(), FaucetError> {
        match self.config {
            None => Err(FaucetError::NotInitialized),
            Some(config) => {
                if config.admin != admin {
                    Err(FaucetError::Unauthorized)
                } else {
                    Ok(())
                }
            },
        }
    }

    /// The state after `update_config`: the given settings are replaced, the
    /// running totals and every claim record stay.
    pub open spec fn after_update(
        self,
        admin: Seq<char>,
        new_distribution_amount: Option<nat>,
        new_cooldown_period: Option<nat>,
        new_active_status: Option<bool>,
    ) -> FaucetState {
        if self.update_result(admin) is Ok {
            FaucetState {
                config: Some(
                    self.config->0.with_settings(
                        new_distribution_amount,
                        new_cooldown_period,
                        new_active_status,
                    ),
                ),
                claims: self.claims,
            }
        } else {
            self
        }
    }

    /// Whether `op` takes effect in this state, rather than being rejected.
    pub open spec fn accepts(self, op: Operation) -> bool {
        match op {
            Operation::Initialize { .. } => self.initialize_result() is Ok,
            Operation::Request { user, now } => self.request_result(user, now) is Ok,
            Operation::Update { admin, .. } => self.update_result(admin) is Ok,
        }
    }

    /// The state after `op`.
    pub open spec fn step(self, op: Operation) -> FaucetState {
        match op {
            Operation::Initialize { admin, token_address, distribution_amount, cooldown_period } =>
                self.after_initialize(admin, token_address, distribution_amount, cooldown_period),
            Operation::Request { user, now } => self.after_request(user, now),
            Operation::Update {
                admin,
                new_distribution_amount,
                new_cooldown_period,
                new_active_status,
            } => self.after_update(
                admin,
                new_distribution_amount,
                new_cooldown_period,
                new_active_status,
            ),
        }
    }

    /// The state after the operations of `ops`, in order.
    pub open spec fn run(self, ops: Seq<Operation>) -> FaucetState
        decreases ops.len(),
    {
        if ops.len() == 0 {
            self
        } else {
            self.run(ops.drop_last()).step(ops.last())
        }
    }

    /// The number of claims among `ops` that are granted when the
    /// operations are applied in order, starting from this state.
    pub open spec fn grants(self, ops: Seq<Operation>) -> nat
        decreases ops.len(),
    {
        if ops.len() == 0 {
            0
        } else {
            let before = self.run(ops.drop_last());
            let granted: nat = if ops.last() is Request && before.accepts(ops.last()) {
                1
            } else {
                0
            };
            self.grants(ops.drop_last()) + granted
        }
    }

    /// What `get_config` returns: the configuration, and no default in its
    /// place while there is none.
    pub open spec fn config_result(self) -> Result<ConfigRecord, FaucetError> {
        match self.config {
            Some(config) => Ok(config),
            None => Err(FaucetError::NotInitialized),
        }
    }
}

} // verus!
