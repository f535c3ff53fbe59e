use token_faucet::{FaucetConfig, FaucetError, Identity, TokenFaucet, UserClaim};

fn id(text: &str) -> Identity {
    Identity::new(text.to_string())
}

fn faucet_with(amount: u64, cooldown: u64) -> TokenFaucet {
    let mut faucet = TokenFaucet::new();
    assert_eq!(faucet.initialize(id("admin"), id("token"), amount, cooldown), Ok(()));
    faucet
}

fn config_of(faucet: &TokenFaucet) -> FaucetConfig {
    faucet.get_config().expect("the faucet has a configuration")
}

#[test]
fn initialize_twice_is_rejected() {
    let mut faucet = TokenFaucet::new();
    assert_eq!(faucet.initialize(id("admin"), id("token"), 100, 60), Ok(()));
    assert_eq!(
        faucet.initialize(id("admin"), id("token"), 100, 60),
        Err(FaucetError::AlreadyInitialized)
    );
    assert_eq!(
        faucet.initialize(id("other"), id("asset"), 7, 0),
        Err(FaucetError::AlreadyInitialized)
    );
    let config = config_of(&faucet);
    assert_eq!(config.admin, id("admin"));
    assert_eq!(config.token_address, id("token"));
    assert_eq!(config.distribution_amount, 100);
    assert_eq!(config.cooldown_period, 60);
}

#[test]
fn get_config_after_initialize_returns_the_parameters() {
    let mut faucet = TokenFaucet::new();
    assert_eq!(faucet.initialize(id("A"), id("T"), 100, 60), Ok(()));
    assert_eq!(
        faucet.get_config(),
        Ok(FaucetConfig {
            admin: id("A"),
            token_address: id("T"),
            distribution_amount: 100,
            cooldown_period: 60,
            total_distributed: 0,
            distribution_count: 0,
            is_active: true,
        })
    );
}

#[test]
fn get_config_before_initialize_is_rejected() {
    let faucet = TokenFaucet::new();
    assert_eq!(faucet.get_config(), Err(FaucetError::NotInitialized));
}

#[test]
fn request_before_initialize_is_rejected() {
    let mut faucet = TokenFaucet::new();
    assert_eq!(faucet.request_tokens(id("U"), 1000), Err(FaucetError::NotInitialized));
    assert_eq!(faucet.get_config(), Err(FaucetError::NotInitialized));
    assert_eq!(faucet.get_user_claims(id("U")), UserClaim::new(id("U")));
}

#[test]
fn update_before_initialize_is_rejected() {
    let mut faucet = TokenFaucet::new();
    assert_eq!(
        faucet.update_config(id("admin"), Some(5), Some(6), Some(false)),
        Err(FaucetError::NotInitialized)
    );
    assert_eq!(faucet.get_config(), Err(FaucetError::NotInitialized));
}

#[test]
fn first_request_is_granted() {
    let mut faucet = faucet_with(100, 60);
    assert_eq!(faucet.request_tokens(id("U"), 1000), Ok(100));
    assert_eq!(
        faucet.get_user_claims(id("U")),
        UserClaim { user: id("U"), last_claim_timestamp: 1000, total_claims: 1, total_amount: 100 }
    );
    let config = config_of(&faucet);
    assert_eq!(config.total_distributed, 100);
    assert_eq!(config.distribution_count, 1);
}

#[test]
fn first_request_is_granted_whatever_the_cooldown() {
    for cooldown in [0, 1, 60, u64::MAX] {
        for now in [0, 1, 59, u64::MAX] {
            let mut faucet = faucet_with(100, cooldown);
            assert_eq!(faucet.request_tokens(id("U"), now), Ok(100));
            let claim = faucet.get_user_claims(id("U"));
            assert_eq!(claim.last_claim_timestamp, now);
            assert_eq!(claim.total_claims, 1);
            assert_eq!(claim.total_amount, 100);
        }
    }
}

#[test]
fn second_request_one_second_early_is_rejected() {
    let mut faucet = faucet_with(100, 60);
    assert_eq!(faucet.request_tokens(id("U"), 1000), Ok(100));
    let config_before = config_of(&faucet);
    let claim_before = faucet.get_user_claims(id("U"));
    assert_eq!(faucet.request_tokens(id("U"), 1059), Err(FaucetError::CooldownActive));
    assert_eq!(config_of(&faucet), config_before);
    assert_eq!(faucet.get_user_claims(id("U")), claim_before);
    assert_eq!(faucet.request_tokens(id("U"), 1000), Err(FaucetError::CooldownActive));
    assert_eq!(faucet.request_tokens(id("U"), 1001), Err(FaucetError::CooldownActive));
    assert_eq!(config_of(&faucet), config_before);
    assert_eq!(faucet.get_user_claims(id("U")), claim_before);
}

#[test]
fn second_request_at_the_end_of_the_cooldown_is_granted() {
    let mut faucet = faucet_with(100, 60);
    assert_eq!(faucet.request_tokens(id("U"), 1000), Ok(100));
    assert_eq!(faucet.request_tokens(id("U"), 1060), Ok(100));
    assert_eq!(
        faucet.get_user_claims(id("U")),
        UserClaim { user: id("U"), last_claim_timestamp: 1060, total_claims: 2, total_amount: 200 }
    );
    let config = config_of(&faucet);
    assert_eq!(config.total_distributed, 200);
    assert_eq!(config.distribution_count, 2);
}

#[test]
fn second_request_long_after_the_cooldown_is_granted() {
    let mut faucet = faucet_with(100, 60);
    assert_eq!(faucet.request_tokens(id("U"), 1000), Ok(100));
    assert_eq!(faucet.request_tokens(id("U"), u64::MAX), Ok(100));
    let claim = faucet.get_user_claims(id("U"));
    assert_eq!(claim.last_claim_timestamp, u64::MAX);
    assert_eq!(claim.total_claims, 2);
    assert_eq!(claim.total_amount, 200);
}

#[test]
fn cooldown_is_kept_per_identity() {
    let mut faucet = faucet_with(100, 60);
    assert_eq!(faucet.request_tokens(id("U"), 1000), Ok(100));
    assert_eq!(faucet.request_tokens(id("V"), 1001), Ok(100));
    assert_eq!(faucet.request_tokens(id("U"), 1002), Err(FaucetError::CooldownActive));
    assert_eq!(faucet.request_tokens(id("V"), 1060), Err(FaucetError::CooldownActive));
    assert_eq!(faucet.request_tokens(id("U"), 1060), Ok(100));
    assert_eq!(faucet.get_user_claims(id("U")).total_claims, 2);
    assert_eq!(faucet.get_user_claims(id("V")).total_claims, 1);
    assert_eq!(config_of(&faucet).distribution_count, 3);
}

#[test]
fn claim_at_time_zero_does_not_start_a_cooldown() {
    let mut faucet = faucet_with(100, 60);
    assert_eq!(faucet.request_tokens(id("U"), 0), Ok(100));
    assert_eq!(faucet.get_user_claims(id("U")).last_claim_timestamp, 0);
    assert_eq!(faucet.get_user_claims(id("U")).total_claims, 1);
    assert_eq!(faucet.request_tokens(id("U"), 59), Ok(100));
    assert_eq!(faucet.request_tokens(id("U"), 60), Err(FaucetError::CooldownActive));
}

#[test]
fn clock_that_runs_backwards_is_rejected() {
    let mut faucet = faucet_with(100, 0);
    assert_eq!(faucet.request_tokens(id("U"), 1000), Ok(100));
    assert_eq!(faucet.request_tokens(id("U"), 999), Err(FaucetError::CooldownActive));
    assert_eq!(faucet.request_tokens(id("U"), 0), Err(FaucetError::CooldownActive));
    assert_eq!(faucet.get_user_claims(id("U")).last_claim_timestamp, 1000);
    assert_eq!(faucet.request_tokens(id("U"), 1000), Ok(100));
}

#[test]
fn cooldown_that_ends_beyond_the_clock_never_ends() {
    let mut faucet = faucet_with(100, u64::MAX);
    assert_eq!(faucet.request_tokens(id("U"), 5), Ok(100));
    assert_eq!(faucet.request_tokens(id("U"), u64::MAX), Err(FaucetError::CooldownActive));
    let mut faucet = faucet_with(100, u64::MAX);
    assert_eq!(faucet.request_tokens(id("U"), 1), Ok(100));
    assert_eq!(faucet.request_tokens(id("U"), u64::MAX - 1), Err(FaucetError::CooldownActive));
    assert_eq!(faucet.request_tokens(id("U"), u64::MAX), Err(FaucetError::CooldownActive));
}

#[test]
fn update_config_by_another_identity_is_rejected() {
    let mut faucet = faucet_with(100, 60);
    let before = config_of(&faucet);
    assert_eq!(
        faucet.update_config(id("mallory"), Some(1_000_000), Some(0), Some(false)),
        Err(FaucetError::Unauthorized)
    );
    assert_eq!(config_of(&faucet), before);
    assert_eq!(faucet.update_config(id("token"), None, None, None), Err(FaucetError::Unauthorized));
    assert_eq!(faucet.update_config(id("Admin"), None, None, None), Err(FaucetError::Unauthorized));
    assert_eq!(config_of(&faucet), before);
}

#[test]
fn update_config_switches_the_faucet_off() {
    let mut faucet = faucet_with(100, 60);
    assert_eq!(faucet.request_tokens(id("U"), 1000), Ok(100));
    assert_eq!(faucet.update_config(id("admin"), None, None, Some(false)), Ok(()));
    assert_eq!(
        faucet.get_config(),
        Ok(FaucetConfig {
            admin: id("admin"),
            token_address: id("token"),
            distribution_amount: 100,
            cooldown_period: 60,
            total_distributed: 100,
            distribution_count: 1,
            is_active: false,
        })
    );
    let claim_before = faucet.get_user_claims(id("U"));
    assert_eq!(faucet.request_tokens(id("U"), 5000), Err(FaucetError::FaucetInactive));
    assert_eq!(faucet.request_tokens(id("V"), 5000), Err(FaucetError::FaucetInactive));
    assert_eq!(faucet.get_user_claims(id("U")), claim_before);
    assert_eq!(faucet.get_user_claims(id("V")), UserClaim::new(id("V")));
    assert_eq!(config_of(&faucet).distribution_count, 1);
    assert_eq!(faucet.update_config(id("admin"), None, None, Some(true)), Ok(()));
    assert_eq!(faucet.request_tokens(id("V"), 5000), Ok(100));
}

#[test]
fn inactive_faucet_is_reported_before_the_cooldown() {
    let mut faucet = faucet_with(100, 60);
    assert_eq!(faucet.request_tokens(id("U"), 1000), Ok(100));
    assert_eq!(faucet.update_config(id("admin"), None, None, Some(false)), Ok(()));
    assert_eq!(faucet.request_tokens(id("U"), 1001), Err(FaucetError::FaucetInactive));
}

#[test]
fn update_config_replaces_the_settings_that_are_given() {
    let mut faucet = faucet_with(100, 60);
    assert_eq!(faucet.request_tokens(id("U"), 1000), Ok(100));
    assert_eq!(faucet.update_config(id("admin"), Some(250), None, None), Ok(()));
    let config = config_of(&faucet);
    assert_eq!(config.distribution_amount, 250);
    assert_eq!(config.cooldown_period, 60);
    assert!(config.is_active);
    assert_eq!(config.total_distributed, 100);
    assert_eq!(config.distribution_count, 1);
    assert_eq!(faucet.update_config(id("admin"), None, Some(10), None), Ok(()));
    let config = config_of(&faucet);
    assert_eq!(config.distribution_amount, 250);
    assert_eq!(config.cooldown_period, 10);
    assert_eq!(faucet.update_config(id("admin"), None, None, None), Ok(()));
    assert_eq!(config_of(&faucet), config);
    assert_eq!(faucet.request_tokens(id("U"), 1010), Ok(250));
    let config = config_of(&faucet);
    assert_eq!(config.total_distributed, 350);
    assert_eq!(config.distribution_count, 2);
    assert_eq!(config.admin, id("admin"));
    assert_eq!(config.token_address, id("token"));
    assert_eq!(faucet.get_user_claims(id("U")).total_amount, 350);
}

#[test]
fn get_user_claims_of_an_unknown_identity_is_the_zero_record() {
    let faucet = faucet_with(100, 60);
    assert_eq!(
        faucet.get_user_claims(id("U")),
        UserClaim { user: id("U"), last_claim_timestamp: 0, total_claims: 0, total_amount: 0 }
    );
    assert_eq!(faucet.get_user_claims(id("U")), UserClaim::new(id("U")));
    assert_eq!(config_of(&faucet).distribution_count, 0);
    let uninitialized = TokenFaucet::new();
    assert_eq!(uninitialized.get_user_claims(id("U")), UserClaim::new(id("U")));
}

#[test]
fn reading_a_record_does_not_count_as_a_claim() {
    let mut faucet = faucet_with(100, 60);
    let _ = faucet.get_user_claims(id("U"));
    assert_eq!(faucet.request_tokens(id("U"), 1000), Ok(100));
    assert_eq!(faucet.get_user_claims(id("U")).total_claims, 1);
}

#[test]
fn totals_follow_the_granted_claims() {
    let mut faucet = faucet_with(7, 10);
    let users = ["a", "b", "c"];
    let mut granted: u64 = 0;
    for now in 1..=100u64 {
        for user in users {
            if faucet.request_tokens(id(user), now).is_ok() {
                granted += 1;
            }
        }
        let config = config_of(&faucet);
        assert_eq!(config.distribution_count, granted);
        assert_eq!(config.total_distributed, granted * 7);
    }
    assert_eq!(granted, 30);
    let mut sum_claims = 0;
    let mut sum_amounts = 0;
    for user in users {
        let claim = faucet.get_user_claims(id(user));
        assert_eq!(claim.total_claims, 10);
        assert_eq!(claim.last_claim_timestamp, 91);
        sum_claims += claim.total_claims;
        sum_amounts += claim.total_amount;
    }
    assert_eq!(sum_claims, 30);
    assert_eq!(sum_amounts, 210);
}

#[test]
fn request_that_would_overflow_is_not_made() {
    let mut faucet = faucet_with(u64::MAX, 60);
    assert!(faucet.request_fits(&id("U"), 1000));
    assert_eq!(faucet.try_request_tokens(id("U"), 1000), Some(Ok(u64::MAX)));
    let config_before = config_of(&faucet);
    assert_eq!(config_before.total_distributed, u64::MAX);
    assert!(!faucet.request_fits(&id("V"), 1000));
    assert_eq!(faucet.try_request_tokens(id("V"), 1000), None);
    assert_eq!(config_of(&faucet), config_before);
    assert_eq!(faucet.get_user_claims(id("V")), UserClaim::new(id("V")));
    assert!(faucet.request_fits(&id("U"), 1001));
    assert_eq!(
        faucet.try_request_tokens(id("U"), 1001),
        Some(Err(FaucetError::CooldownActive))
    );
    assert!(!faucet.request_fits(&id("U"), 1060));
    assert_eq!(faucet.try_request_tokens(id("U"), 1060), None);
}

#[test]
fn rejected_request_always_fits() {
    let uninitialized = TokenFaucet::new();
    assert!(uninitialized.request_fits(&id("U"), 1));
    let mut faucet = faucet_with(u64::MAX, 60);
    assert_eq!(faucet.request_tokens(id("U"), 1000), Ok(u64::MAX));
    assert_eq!(faucet.update_config(id("admin"), None, None, Some(false)), Ok(()));
    assert!(faucet.request_fits(&id("V"), 1000));
    assert_eq!(faucet.try_request_tokens(id("V"), 1000), Some(Err(FaucetError::FaucetInactive)));
}

#[test]
fn faucet_from_records_holds_those_records() {
    let config = FaucetConfig {
        admin: id("admin"),
        token_address: id("token"),
        distribution_amount: 100,
        cooldown_period: 60,
        total_distributed: 500,
        distribution_count: 5,
        is_active: true,
    };
    let claim =
        UserClaim { user: id("U"), last_claim_timestamp: 1000, total_claims: 2, total_amount: 200 };
    let mut faucet = TokenFaucet::from_records(Some(config.clone()), Some(claim.clone()));
    assert_eq!(faucet.get_config(), Ok(config));
    assert_eq!(faucet.get_user_claims(id("U")), claim);
    assert_eq!(faucet.get_user_claims(id("V")), UserClaim::new(id("V")));
    assert_eq!(faucet.request_tokens(id("U"), 1059), Err(FaucetError::CooldownActive));
    assert_eq!(faucet.request_tokens(id("U"), 1060), Ok(100));
    assert_eq!(
        faucet.get_user_claims(id("U")),
        UserClaim { user: id("U"), last_claim_timestamp: 1060, total_claims: 3, total_amount: 300 }
    );
    let after = config_of(&faucet);
    assert_eq!(after.total_distributed, 600);
    assert_eq!(after.distribution_count, 6);

    let mut empty = TokenFaucet::from_records(None, None);
    assert_eq!(empty.get_config(), Err(FaucetError::NotInitialized));
    assert_eq!(empty.initialize(id("admin"), id("token"), 1, 2), Ok(()));
    let mut lone = TokenFaucet::from_records(None, Some(claim.clone()));
    assert_eq!(lone.get_user_claims(id("U")), claim);
    assert_eq!(lone.request_tokens(id("U"), 5000), Err(FaucetError::NotInitialized));
}
