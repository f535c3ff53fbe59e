//! Laws of the faucet, proved about the model over which the contracts of
//! the operations are stated.

use vstd::prelude::*;
use crate::error::FaucetError;
use crate::model::{ClaimRecord, ConfigRecord, FaucetState, Operation};

verus! {

/// A faucet is initialized once: whatever the arguments of two calls of
/// `initialize` in a row, the second is rejected with `AlreadyInitialized`
/// and changes nothing.
pub proof fn lemma_second_initialize_rejected(
    state: FaucetState,
    first: Operation,
    second: Operation,
)
    requires
        first is Initialize,
        second is Initialize,
    ensures
        state.step(first).initialize_result() == Err::<(), _>(FaucetError::AlreadyInitialized),
        !state.step(first).accepts(second),
        state.step(first).step(second) == state.step(first),
{
}

/// After `initialize` on a faucet without configuration, `get_config` returns
/// exactly the given parameters, with nothing distributed and the faucet
/// switched on.
pub proof fn lemma_initialize_then_get_config(
    state: FaucetState,
    admin: Seq<char>,
    token_address: Seq<char>,
    distribution_amount: nat,
    cooldown_period: nat,
)
    requires
        state.config is None,
    ensures
        state.initialize_result() is Ok,
        state.after_initialize(
            admin,
            token_address,
            distribution_amount,
            cooldown_period,
        ).config_result() == Ok::<_, FaucetError>(
            ConfigRecord {
                admin,
                token_address,
                distribution_amount,
                cooldown_period,
                total_distributed: 0,
                distribution_count: 0,
                is_active: true,
            },
        ),
{
}

/// On a faucet that is switched on, the claim of an identity that has never
/// claimed is granted, whatever the cooldown period and the time: it returns
/// the configured amount, sets the time of the latest claim to `now` and the
/// number of claims to 1.
pub proof fn lemma_first_request_granted(state: FaucetState, user: Seq<char>, now: nat)
    requires
        state.config is Some,
        state.config->0.is_active,
        !state.claims.contains_key(user),
    ensures
        state.request_result(user, now) == Ok::<_, FaucetError>(
            state.config->0.distribution_amount,
        ),
        state.after_request(user, now).claim_of(user) == (ClaimRecord {
            user,
            last_claim_timestamp: now,
            total_claims: 1,
            total_amount: state.config->0.distribution_amount,
        }),
{
}

/// The first claim on a freshly initialized faucet is granted, whoever makes
/// it and whatever the parameters of the faucet.
pub proof fn lemma_first_request_after_initialize_granted(
    admin: Seq<char>,
    token_address: Seq<char>,
    distribution_amount: nat,
    cooldown_period: nat,
    user: Seq<char>,
    now: nat,
)
    ensures
        ({
            let fresh = FaucetState::uninitialized().after_initialize(
                admin,
                token_address,
                distribution_amount,
                cooldown_period,
            );
            &&& fresh.request_result(user, now) == Ok::<_, FaucetError>(distribution_amount)
            &&& fresh.after_request(user, now).claim_of(user).last_claim_timestamp == now
            &&& fresh.after_request(user, now).claim_of(user).total_claims == 1
        }),
{
}

/// After a claim granted at a time `now` other than 0, a claim of the same
/// identity at any time before `now + cooldown_period` is rejected with
/// `CooldownActive`, and neither the record of the identity nor the running
/// totals change.
pub proof fn lemma_request_within_cooldown_rejected(
    state: FaucetState,
    user: Seq<char>,
    now: nat,
    later: nat,
)
    requires
        state.request_result(user, now) is Ok,
        now > 0,
        later < now + state.config->0.cooldown_period,
    ensures
        state.after_request(user, now).request_result(user, later) == Err::<nat, _>(
            FaucetError::CooldownActive,
        ),
        state.after_request(user, now).after_request(user, later) == state.after_request(
            user,
            now,
        ),
{
}

/// After a claim granted at time `now`, a claim of the same identity at
/// `now + cooldown_period` or later is granted again: the number of claims of
/// the identity goes up by one more, and the configured amount is added once
/// more to the total of the identity and to the total of the faucet.
pub proof fn lemma_request_after_cooldown_granted(
    state: FaucetState,
    user: Seq<char>,
    now: nat,
    later: nat,
)
    requires
        state.request_result(user, now) is Ok,
        later >= now + state.config->0.cooldown_period,
    ensures
        ({
            let amount = state.config->0.distribution_amount;
            let once = state.after_request(user, now);
            let twice = once.after_request(user, later);
            &&& once.request_result(user, later) == Ok::<_, FaucetError>(amount)
            &&& twice.claim_of(user).last_claim_timestamp == later
            &&& twice.claim_of(user).total_claims == state.claim_of(user).total_claims + 2
            &&& twice.claim_of(user).total_amount == state.claim_of(user).total_amount + 2
                * amount
            &&& twice.config->0.total_distributed == state.config->0.total_distributed + 2
                * amount
            &&& twice.config->0.distribution_count == state.config->0.distribution_count + 2
        }),
{
}

/// `update_config` by an identity other than the administrator is rejected
/// with `Unauthorized` and changes nothing.
pub proof fn lemma_update_by_other_rejected(
    state: FaucetState,
    caller: Seq<char>,
    new_distribution_amount: Option<nat>,
    new_cooldown_period: Option<nat>,
    new_active_status: Option<bool>,
)
    requires
        state.config is Some,
        caller != state.config->0.admin,
    ensures
        state.update_result(caller) == Err::<(), _>(FaucetError::Unauthorized),
        state.after_update(
            caller,
            new_distribution_amount,
            new_cooldown_period,
            new_active_status,
        ) == state,
{
}

/// When the administrator gives only the new status `false`, the faucet is
/// switched off and nothing else changes: amount, cooldown period, running
/// totals and claim records stay. Every claim is then rejected with
/// `FaucetInactive` and changes nothing.
pub proof fn lemma_switch_off(state: FaucetState, user: Seq<char>, now: nat)
    requires
        state.config is Some,
    ensures
        ({
            let admin = state.config->0.admin;
            let off = state.after_update(admin, None, None, Some(false));
            &&& state.update_result(admin) is Ok
            &&& off.config == Some(ConfigRecord { is_active: false, ..state.config->0 })
            &&& off.claims == state.claims
            &&& off.request_result(user, now) == Err::<nat, _>(FaucetError::FaucetInactive)
            &&& off.after_request(user, now) == off
        }),
{
}

/// An identity without a claim record reads as the zero record.
pub proof fn lemma_unknown_identity_reads_zero(state: FaucetState, user: Seq<char>)
    requires
        !state.claims.contains_key(user),
    ensures
        state.claim_of(user) == (ClaimRecord {
            user,
            last_claim_timestamp: 0,
            total_claims: 0,
            total_amount: 0,
        }),
{
}

/// A claim touches the record of the claiming identity and no other.
pub proof fn lemma_request_leaves_others(
    state: FaucetState,
    user: Seq<char>,
    now: nat,
    other: Seq<char>,
)
    requires
        other != user,
    ensures
        state.after_request(user, now).claims.contains_key(other) == state.claims.contains_key(
            other,
        ),
        state.after_request(user, now).claim_of(other) == state.claim_of(other),
{
}

/// Claims of two different identities do not depend on each other: each ends
/// the same way whether it comes first or second, and the state after both
/// is the same in either order.
pub proof fn lemma_requests_commute(
    state: FaucetState,
    first: Seq<char>,
    first_now: nat,
    second: Seq<char>,
    second_now: nat,
)
    requires
        first != second,
    ensures
        state.after_request(second, second_now).request_result(first, first_now)
            == state.request_result(first, first_now),
        state.after_request(first, first_now).request_result(second, second_now)
            == state.request_result(second, second_now),
        state.after_request(first, first_now).after_request(second, second_now)
            == state.after_request(second, second_now).after_request(first, first_now),
{
    let one_way = state.after_request(first, first_now).after_request(second, second_now);
    let other_way = state.after_request(second, second_now).after_request(first, first_now);
    assert(one_way.claims =~= other_way.claims);
    assert(one_way =~= other_way);
}

/// A rejected operation changes nothing.
pub proof fn lemma_rejected_changes_nothing(state: FaucetState, op: Operation)
    requires
        !state.accepts(op),
    ensures
        state.step(op) == state,
{
}

/// Whether `later` can follow `earlier` in the life of a faucet: a
/// configuration that exists is still there, with the same administrator and
/// asset and with running totals that are no lower; the claim record of
/// `user` is still there if it was, and its number of claims, its total
/// amount and the time of its latest claim are no lower.
pub open spec fn no_step_back(earlier: FaucetState, later: FaucetState, user: Seq<char>) -> bool {
    &&& earlier.config is Some ==> {
        &&& later.config is Some
        &&& later.config->0.admin == earlier.config->0.admin
        &&& later.config->0.token_address == earlier.config->0.token_address
        &&& later.config->0.total_distributed >= earlier.config->0.total_distributed
        &&& later.config->0.distribution_count >= earlier.config->0.distribution_count
    }
    &&& earlier.claims.contains_key(user) ==> later.claims.contains_key(user)
    &&& later.claim_of(user).user == earlier.claim_of(user).user
    &&& later.claim_of(user).total_claims >= earlier.claim_of(user).total_claims
    &&& later.claim_of(user).total_amount >= earlier.claim_of(user).total_amount
    &&& later.claim_of(user).last_claim_timestamp >= earlier.claim_of(user).last_claim_timestamp
}

/// No operation removes a record or lowers a counter, and no operation
/// changes the administrator or the asset of a configuration that exists.
pub proof fn lemma_step_monotone(state: FaucetState, op: Operation, user: Seq<char>)
    ensures
        no_step_back(state, state.step(op), user),
{
}

/// Over any sequence of operations no record is removed, no counter is
/// lowered, and the administrator and the asset stay as they are.
pub proof fn lemma_run_monotone(state: FaucetState, ops: Seq<Operation>, user: Seq<char>)
    ensures
        no_step_back(state, state.run(ops), user),
    decreases ops.len(),
{
    if ops.len() > 0 {
        lemma_run_monotone(state, ops.drop_last(), user);
        lemma_step_monotone(state.run(ops.drop_last()), ops.last(), user);
    }
}

/// Whether the distribution amount is the same before the first operation
/// of `ops`, between any two of them and after the last.
pub open spec fn amount_stays(state: FaucetState, ops: Seq<Operation>) -> bool {
    forall|n: int|
        0 <= n <= ops.len() ==> (#[trigger] state.run(ops.take(n))).config->0.distribution_amount
            == state.config->0.distribution_amount
}

/// Whether every operation of `ops` is a claim.
pub open spec fn only_claims(ops: Seq<Operation>) -> bool {
    forall|i: int| 0 <= i < ops.len() ==> #[trigger] ops[i] is Request
}

/// Over any sequence of operations on an initialized faucet during which the
/// distribution amount stays the same, the number of distributions grows by
/// the number of granted claims, and the total distributed grows by that
/// number times the distribution amount.
pub proof fn lemma_totals_count_grants(state: FaucetState, ops: Seq<Operation>)
    requires
        state.config is Some,
        amount_stays(state, ops),
    ensures
        state.run(ops).config is Some,
        state.run(ops).config->0.distribution_count == state.config->0.distribution_count
            + state.grants(ops),
        state.run(ops).config->0.total_distributed == state.config->0.total_distributed
            + state.grants(ops) * state.config->0.distribution_amount,
    decreases ops.len(),
{
    let amount = state.config->0.distribution_amount;
    if ops.len() > 0 {
        let earlier = ops.drop_last();
        assert forall|n: int| 0 <= n <= earlier.len() implies (#[trigger] state.run(
            earlier.take(n),
        )).config->0.distribution_amount == amount by {
            assert(earlier.take(n) =~= ops.take(n));
        }
        lemma_totals_count_grants(state, earlier);
        assert(earlier =~= ops.take(earlier.len() as int));
        let so_far = state.grants(earlier);
        if ops.last() is Request && state.run(earlier).accepts(ops.last()) {
            assert((so_far + 1) * amount == so_far * amount + amount) by (nonlinear_arith);
        }
    } else {
        assert(state.grants(ops) * amount == 0) by (nonlinear_arith)
            requires
                state.grants(ops) == 0,
        ;
    }
}

/// Claims leave the settings of the faucet as they are.
pub proof fn lemma_claims_keep_settings(state: FaucetState, claims: Seq<Operation>)
    requires
        state.config is Some,
        only_claims(claims),
    ensures
        state.run(claims).config is Some,
        state.run(claims).config->0.distribution_amount == state.config->0.distribution_amount,
        state.run(claims).config->0.cooldown_period == state.config->0.cooldown_period,
        state.run(claims).config->0.is_active == state.config->0.is_active,
    decreases claims.len(),
{
    if claims.len() > 0 {
        let earlier = claims.drop_last();
        assert forall|i: int| 0 <= i < earlier.len() implies #[trigger] earlier[i] is Request by {
            assert(earlier[i] == claims[i]);
        }
        lemma_claims_keep_settings(state, earlier);
        assert(claims.last() == claims[claims.len() - 1]);
    }
}

/// For every sequence of claims on an initialized faucet,
/// `distribution_count` grows by the number of claims that are granted and
/// `total_distributed` by that number times the distribution amount.
pub proof fn lemma_totals_of_claims(state: FaucetState, claims: Seq<Operation>)
    requires
        state.config is Some,
        only_claims(claims),
    ensures
        state.run(claims).config is Some,
        state.run(claims).config->0.distribution_count == state.config->0.distribution_count
            + state.grants(claims),
        state.run(claims).config->0.total_distributed == state.config->0.total_distributed
            + state.grants(claims) * state.config->0.distribution_amount,
{
    assert forall|n: int| 0 <= n <= claims.len() implies (#[trigger] state.run(
        claims.take(n),
    )).config->0.distribution_amount == state.config->0.distribution_amount by {
        let upto = claims.take(n);
        assert forall|i: int| 0 <= i < upto.len() implies #[trigger] upto[i] is Request by {
            assert(upto[i] == claims[i]);
        }
        lemma_claims_keep_settings(state, upto);
    }
    lemma_totals_count_grants(state, claims);
}

/// On a faucet that starts freshly initialized, after any sequence of claims
/// `distribution_count` is the number of claims that were granted, and
/// `total_distributed` is `distribution_count` times the distribution amount.
pub proof fn lemma_totals_of_fresh_faucet(
    admin: Seq<char>,
    token_address: Seq<char>,
    distribution_amount: nat,
    cooldown_period: nat,
    claims: Seq<Operation>,
)
    requires
        only_claims(claims),
    ensures
        ({
            let fresh = FaucetState::uninitialized().after_initialize(
                admin,
                token_address,
                distribution_amount,
                cooldown_period,
            );
            let end = fresh.run(claims);
            &&& end.config is Some
            &&& end.config->0.distribution_count == fresh.grants(claims)
            &&& end.config->0.total_distributed == end.config->0.distribution_count
                * distribution_amount
        }),
{
    let fresh = FaucetState::uninitialized().after_initialize(
        admin,
        token_address,
        distribution_amount,
        cooldown_period,
    );
    lemma_totals_of_claims(fresh, claims);
}

/// When every claim of a sequence is granted, the number of granted claims
/// is the length of the sequence.
pub proof fn lemma_all_granted(state: FaucetState, claims: Seq<Operation>)
    requires
        forall|i: int|
            0 <= i < claims.len() ==> (#[trigger] claims[i]) is Request && state.run(
                claims.take(i),
            ).accepts(claims[i]),
    ensures
        state.grants(claims) == claims.len(),
    decreases claims.len(),
{
    if claims.len() > 0 {
        let earlier = claims.drop_last();
        assert forall|i: int| 0 <= i < earlier.len() implies (#[trigger] earlier[i]) is Request
            && state.run(earlier.take(i)).accepts(earlier[i]) by {
            assert(earlier[i] == claims[i]);
            assert(earlier.take(i) =~= claims.take(i));
        }
        lemma_all_granted(state, earlier);
        let last = claims.len() - 1;
        assert(claims.take(last) =~= earlier);
        assert(claims[last] == claims.last());
    }
}

} // verus!
