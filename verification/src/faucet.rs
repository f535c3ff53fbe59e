//! The faucet itself: the configuration record, the claim registry, and the
//! operations that read and change them. Each operation either takes full
//! effect or is rejected and changes nothing.

use vstd::prelude::*;
use crate::claims::{claim_record, ClaimStore, UserClaim, UserClaimRegistry};
use crate::config::{config_record, setting, FaucetConfig};
use crate::error::FaucetError;
use crate::identity::Identity;
use crate::model::{ConfigRecord, FaucetState};

verus! {

/// The view of what a claim returns.
pub open spec fn grant_view(result: Result<u64, FaucetError>) -> Result<nat, FaucetError> {
    match result {
        Ok(amount) => Ok(amount as nat),
        Err(e) => Err(e),
    }
}

/// The view of what reading the configuration returns.
pub open spec fn config_view(result: Result<FaucetConfig, FaucetError>) -> Result<
    ConfigRecord,
    FaucetError,
> {
    match result {
        Ok(config) => Ok(config@),
        Err(e) => Err(e),
    }
}

/// A faucet: at most one configuration record, and the claim records of the
/// identities that have claimed.
///
/// The operations trust their caller on two points. The identity handed to
/// `request_tokens` or `update_config` is one whose control the invoking
/// principal has proved, and `now` is the reading of the one ledger clock
/// that all callers share.
pub struct TokenFaucet {
    config: Option<FaucetConfig>,
    claims: ClaimStore,
}

impl View for TokenFaucet {
    type V = FaucetState;

    closed spec fn view(&self) -> FaucetState {
        FaucetState { config: config_record(self.config), claims: self.claims@ }
    }
}

impl TokenFaucet {
    /// A faucet that has not been initialized and holds no record.
    pub fn new() -> (faucet: TokenFaucet)
        ensures
            faucet@ == FaucetState::uninitialized(),
    {
        TokenFaucet { config: None, claims: ClaimStore::new() }
    }

    /// A faucet that holds the given records and no others. This is how an
    /// embedding system that keeps the records in its own storage hands one
    /// operation the records that the operation can touch.
    pub fn from_records(config: Option<FaucetConfig>, claim: Option<UserClaim>) -> (faucet:
        TokenFaucet)
        ensures
            faucet@ == FaucetState::holding(config_record(config), claim_record(claim)),
    {
        let mut claims = ClaimStore::new();
        if let Some(record) = claim {
            claims.store(record);
        }
        TokenFaucet { config, claims }
    }

    /// Creates the configuration of the faucet, with nothing distributed yet
    /// and the faucet switched on. A faucet is initialized once: when it
    /// already has a configuration the call is rejected with
    /// `AlreadyInitialized`, whatever the arguments.
    pub fn initialize(
        &mut self,
        admin: Identity,
        token_address: Identity,
        distribution_amount: u64,
        cooldown_period: u64,
    ) -> (result: Result<(), FaucetError>)
        ensures
            result == old(self)@.initialize_result(),
            final(self)@ == old(self)@.after_initialize(
                admin@,
                token_address@,
                distribution_amount as nat,
                cooldown_period as nat,
            ),
    {
        if self.config.is_some() {
            return Err(FaucetError::AlreadyInitialized);
        }
        self.config = Some(
            FaucetConfig::new(admin, token_address, distribution_amount, cooldown_period),
        );
        Ok(())
    }

    /// Decides a claim of `user` at time `now` without changing anything:
    /// the rejection that applies, or the two records that a grant updates.
    fn examine_request(&self, user: &Identity, now: u64) -> (decision: Result<
        (FaucetConfig, UserClaim),
        FaucetError,
    >)
        ensures
            match decision {
                Ok((config, claim)) => {
                    &&& self@.request_result(user@, now as nat) is Ok
                    &&& self@.config == Some(config@)
                    &&& claim@ == self@.claim_of(user@)
                    &&& claim@.user == user@
                },
                Err(e) => grant_view(Err(e)) == self@.request_result(user@, now as nat),
            },
    {
        let config = match &self.config {
            None => {
                return Err(FaucetError::NotInitialized);
            },
            Some(config) => config.clone(),
        };
        if !config.is_active {
            return Err(FaucetError::FaucetInactive);
        }
        let key = UserClaimRegistry::User(user.clone());
        let found = self.claims.lookup(&key);
        proof {
            if found is Some {
                self.claims.lemma_keyed_by_user(key@);
            }
        }
        let claim = match key {
            UserClaimRegistry::User(user) => UserClaim::or_default(found, user),
        };
        if claim.cooling_down(now, config.cooldown_period) {
            return Err(FaucetError::CooldownActive);
        }
        Ok((config, claim))
    }

    /// Whether a claim of `user` at time `now` leaves every counter within
    /// 64 bits. This is the condition under which `request_tokens` may be
    /// called; a claim that would be rejected always meets it.
    pub fn request_fits(&self, user: &Identity, now: u64) -> (fits: bool)
        ensures
            fits == self@.request_fits(user@, now as nat),
    {
        match self.examine_request(user, now) {
            Ok((config, claim)) => config.grant_fits() && claim.grant_fits(
                config.distribution_amount,
            ),
            Err(_) => true,
        }
    }

    /// Claims tokens for `user` at ledger time `now`.
    ///
    /// The claim is rejected with `NotInitialized` when the faucet has no
    /// configuration, else with `FaucetInactive` when it is switched off,
    /// else with `CooldownActive` when `user` has claimed before and fewer
    /// than `cooldown_period` seconds have passed since. Otherwise the
    /// configured amount is granted and returned, and the grant is recorded
    /// with `user` and in the running totals. Moving the asset is left to
    /// the caller.
    ///
    /// An identity whose latest claim was at time 0 counts as one that has
    /// never claimed, so the cooldown does not hold it back.
    pub fn request_tokens(&mut self, user: Identity, now: u64) -> (result: Result<
        u64,
        FaucetError,
    >)
        requires
            old(self)@.request_fits(user@, now as nat),
        ensures
            grant_view(result) == old(self)@.request_result(user@, now as nat),
            final(self)@ == old(self)@.after_request(user@, now as nat),
    {
        let (mut config, mut claim) = match self.examine_request(&user, now) {
            Ok(records) => records,
            Err(e) => {
                return Err(e);
            },
        };
        let amount = config.distribution_amount;
        claim.record_grant(now, amount);
        config.record_grant();
        self.claims.store(claim);
        self.config = Some(config);
        Ok(amount)
    }

    /// Claims tokens for `user` at ledger time `now` as `request_tokens`
    /// does, unless a counter would leave 64 bits: then nothing changes and
    /// `None` is returned.
    pub fn try_request_tokens(&mut self, user: Identity, now: u64) -> (outcome: Option<
        Result<u64, FaucetError>,
    >)
        ensures
            outcome is Some <==> old(self)@.request_fits(user@, now as nat),
            outcome matches Some(result) ==> grant_view(result) == old(self)@.request_result(
                user@,
                now as nat,
            ),
            final(self)@ == if outcome is Some {
                old(self)@.after_request(user@, now as nat)
            } else {
                old(self)@
            },
    {
        if self.request_fits(&user, now) {
            Some(self.request_tokens(user, now))
        } else {
            None
        }
    }

    /// Changes the settings of the faucet on behalf of `admin`.
    ///
    /// The call is rejected with `NotInitialized` when the faucet has no
    /// configuration, else with `Unauthorized` when `admin` is not the
    /// administrator named in it. Otherwise each setting that is given
    /// replaces the current one. The running totals and the claim records
    /// are never touched.
    pub fn update_config(
        &mut self,
        admin: Identity,
        new_distribution_amount: Option<u64>,
        new_cooldown_period: Option<u64>,
        new_active_status: Option<bool>,
    ) -> (result: Result<(), FaucetError>)
        ensures
            result == old(self)@.update_result(admin@),
            final(self)@ == old(self)@.after_update(
                admin@,
                setting(new_distribution_amount),
                setting(new_cooldown_period),
                new_active_status,
            ),
    {
        let mut config = match &self.config {
            None => {
                return Err(FaucetError::NotInitialized);
            },
            Some(config) => config.clone(),
        };
        if !config.admin.same_as(&admin) {
            return Err(FaucetError::Unauthorized);
        }
        config.apply_settings(new_distribution_amount, new_cooldown_period, new_active_status);
        self.config = Some(config);
        Ok(())
    }

    /// The configuration of the faucet. There is no default: the call is
    /// rejected with `NotInitialized` while the faucet has none.
    pub fn get_config(&self) -> (result: Result<FaucetConfig, FaucetError>)
        ensures
            config_view(result) == self@.config_result(),
    {
        match &self.config {
            Some(config) => Ok(config.clone()),
            None => Err(FaucetError::NotInitialized),
        }
    }

    /// The claim record of `user`, or the zero record when `user` has none.
    /// Looking a record up never creates one.
    pub fn get_user_claims(&self, user: Identity) -> (claim: UserClaim)
        ensures
            claim@ == self@.claim_of(user@),
    {
        let key = UserClaimRegistry::User(user);
        let found = self.claims.lookup(&key);
        match key {
            UserClaimRegistry::User(user) => UserClaim::or_default(found, user),
        }
    }
}

} // verus!
