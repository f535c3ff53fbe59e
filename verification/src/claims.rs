//! The claim registry: one record per identity, found by identity, with the
//! zero record standing in for an identity that has none.

use vstd::prelude::*;
use crate::identity::Identity;
use crate::model::ClaimRecord;

verus! {

/// The claim history of one identity.
#[derive(Debug, PartialEq, Eq)]
pub struct UserClaim {
    /// The identity that the record belongs to.
    pub user: Identity,
    /// The ledger time of the latest successful claim; 0 stands for "never".
    pub last_claim_timestamp: u64,
    /// The number of successful claims of this identity.
    pub total_claims: u64,
    /// The sum of the amounts granted to this identity.
    pub total_amount: u64,
}

impl View for UserClaim {
    type V = ClaimRecord;

    open spec fn view(&self) -> ClaimRecord {
        ClaimRecord {
            user: self.user@,
            last_claim_timestamp: self.last_claim_timestamp as nat,
            total_claims: self.total_claims as nat,
            total_amount: self.total_amount as nat,
        }
    }
}

impl Clone for UserClaim {
    fn clone(&self) -> (copy: UserClaim)
        ensures
            copy@ == self@,
    {
        UserClaim {
            user: self.user.clone(),
            last_claim_timestamp: self.last_claim_timestamp,
            total_claims: self.total_claims,
            total_amount: self.total_amount,
        }
    }
}

/// The view of an optional claim record.
pub open spec fn claim_record(claim: Option<UserClaim>) -> Option<ClaimRecord> {
    match claim {
        Some(c) => Some(c@),
        None => None,
    }
}

impl UserClaim {
    /// The record of an identity that has never claimed.
    pub fn new(user: Identity) -> (claim: UserClaim)
        ensures
            claim@ == ClaimRecord::fresh(user@),
    {
        UserClaim { user, last_claim_timestamp: 0, total_claims: 0, total_amount: 0 }
    }

    /// Whether a claim at time `now` falls inside the cooldown window of this
    /// record. The elapsed time is never computed by a subtraction that could
    /// wrap: a clock that reads earlier than the latest claim counts as
    /// inside the window.
    pub fn cooling_down(&self, now: u64, cooldown_period: u64) -> (blocked: bool)
        ensures
            blocked == self@.cooling_down(now as nat, cooldown_period as nat),
    {
        let last = self.last_claim_timestamp;
        last > 0 && (now < last || now - last < cooldown_period)
    }

    /// Whether a grant of `amount` can be added to this record without a
    /// counter leaving 64 bits.
    pub fn grant_fits(&self, amount: u64) -> (fits: bool)
        ensures
            fits == self@.grant_fits(amount as nat),
    {
        self.total_claims < u64::MAX && self.total_amount <= u64::MAX - amount
    }

    /// The record that was found, or the zero record of `user` if none was.
    pub fn or_default(found: Option<UserClaim>, user: Identity) -> (claim: UserClaim)
        ensures
            claim@ == match found {
                Some(record) => record@,
                None => ClaimRecord::fresh(user@),
            },
    {
        match found {
            Some(record) => record,
            None => UserClaim::new(user),
        }
    }

    /// Records a grant of `amount` at time `now`.
    pub fn record_grant(&mut self, now: u64, amount: u64)
        requires
            old(self)@.grant_fits(amount as nat),
        ensures
            final(self)@ == old(self)@.after_grant(now as nat, amount as nat),
    {
        self.last_claim_timestamp = now;
        self.total_claims = self.total_claims + 1;
        self.total_amount = self.total_amount + amount;
    }
}

/// The key under which a claim record is kept.
#[derive(Debug, PartialEq, Eq)]
pub enum UserClaimRegistry {
    /// The record of the given identity.
    User(Identity),
}

impl View for UserClaimRegistry {
    type V = Seq<char>;

    open spec fn view(&self) -> Seq<char> {
        match self {
            UserClaimRegistry::User(user) => user@,
        }
    }
}

impl UserClaimRegistry {
    /// The identity whose record this key names.
    pub fn identity(&self) -> (user: &Identity)
        ensures
            user@ == self@,
    {
        match self {
            UserClaimRegistry::User(user) => user,
        }
    }
}

/// Whether no two of `entries` belong to the same identity.
spec fn distinct_users(entries: Seq<UserClaim>) -> bool {
    forall|i: int, j: int|
        0 <= i < j < entries.len() ==> (#[trigger] entries[i]).user@ != (#[trigger] entries[j]).user@
}

/// Whether one of `entries` belongs to `user`.
spec fn holds(entries: Seq<UserClaim>, user: Seq<char>) -> bool {
    exists|i: int| 0 <= i < entries.len() && (#[trigger] entries[i]).user@ == user
}

/// The place of the entry of `user` among `entries`.
spec fn position(entries: Seq<UserClaim>, user: Seq<char>) -> int {
    choose|i: int| 0 <= i < entries.len() && (#[trigger] entries[i]).user@ == user
}

/// The records of `entries`, each under the identity that it names.
spec fn records(entries: Seq<UserClaim>) -> Map<Seq<char>, ClaimRecord> {
    Map::new(
        |user: Seq<char>| holds(entries, user),
        |user: Seq<char>| entries[position(entries, user)]@,
    )
}

/// Among entries of distinct identities, an identity is found at the place
/// of its entry.
proof fn lemma_position(entries: Seq<UserClaim>, i: int)
    requires
        distinct_users(entries),
        0 <= i < entries.len(),
    ensures
        holds(entries, entries[i].user@),
        position(entries, entries[i].user@) == i,
{
    let found = position(entries, entries[i].user@);
    assert(0 <= found < entries.len() && entries[found].user@ == entries[i].user@);
}

/// Writing `claim` over the entry of the same identity replaces the record
/// of that identity and no other.
proof fn lemma_replace(entries: Seq<UserClaim>, i: int, claim: UserClaim)
    requires
        distinct_users(entries),
        0 <= i < entries.len(),
        entries[i].user@ == claim.user@,
    ensures
        distinct_users(entries.update(i, claim)),
        records(entries.update(i, claim)) == records(entries).insert(claim.user@, claim@),
{
    let after = entries.update(i, claim);
    assert(distinct_users(after));
    lemma_position(entries, i);
    lemma_position(after, i);
    assert forall|user: Seq<char>| holds(after, user) == holds(entries, user) by {
        if holds(entries, user) {
            assert(after[position(entries, user)].user@ == user);
        }
        if holds(after, user) {
            assert(entries[position(after, user)].user@ == user);
        }
    }
    assert forall|user: Seq<char>| holds(after, user) implies records(after)[user] == records(
        entries,
    ).insert(claim.user@, claim@)[user] by {
        let k = position(after, user);
        lemma_position(after, k);
        lemma_position(entries, k);
    }
    assert(records(after) =~= records(entries).insert(claim.user@, claim@));
}

/// Appending the claim of an identity that has no entry adds the record of
/// that identity and changes no other.
proof fn lemma_append(entries: Seq<UserClaim>, claim: UserClaim)
    requires
        distinct_users(entries),
        !holds(entries, claim.user@),
    ensures
        distinct_users(entries.push(claim)),
        records(entries.push(claim)) == records(entries).insert(claim.user@, claim@),
{
    let after = entries.push(claim);
    let last = entries.len() as int;
    assert(distinct_users(after));
    lemma_position(after, last);
    assert forall|user: Seq<char>|
        holds(after, user) == (holds(entries, user) || user == claim.user@) by {
        if holds(entries, user) {
            assert(after[position(entries, user)].user@ == user);
        }
        if holds(after, user) && position(after, user) < last {
            assert(entries[position(after, user)].user@ == user);
        }
    }
    assert forall|user: Seq<char>| holds(after, user) implies records(after)[user] == records(
        entries,
    ).insert(claim.user@, claim@)[user] by {
        let k = position(after, user);
        lemma_position(after, k);
        if k < last {
            assert(after[k] == entries[k]);
            lemma_position(entries, k);
        }
    }
    assert(records(after) =~= records(entries).insert(claim.user@, claim@));
}

/// The claim records that exist, at most one for each identity.
pub struct ClaimStore {
    entries: Vec<UserClaim>,
}

impl View for ClaimStore {
    type V = Map<Seq<char>, ClaimRecord>;

    closed spec fn view(&self) -> Map<Seq<char>, ClaimRecord> {
        records(self.entries@)
    }
}

impl ClaimStore {
    #[verifier::type_invariant]
    spec fn distinct(&self) -> bool {
        distinct_users(self.entries@)
    }

    /// Every record is kept under the identity that it names.
    pub proof fn lemma_keyed_by_user(&self, user: Seq<char>)
        requires
            self@.contains_key(user),
        ensures
            self@[user].user == user,
    {
    }

    /// The registry without any record.
    pub fn new() -> (store: ClaimStore)
        ensures
            store@ == Map::<Seq<char>, ClaimRecord>::empty(),
    {
        let store = ClaimStore { entries: Vec::new() };
        assert(store@ =~= Map::<Seq<char>, ClaimRecord>::empty());
        store
    }

    /// The place of the entry of `user`, if there is one.
    fn find(&self, user: &Identity) -> (at: Option<usize>)
        ensures
            match at {
                Some(i) => i < self.entries@.len() && self.entries@[i as int].user@ == user@,
                None => !holds(self.entries@, user@),
            },
    {
        let mut i: usize = 0;
        while i < self.entries.len()
            invariant
                i <= self.entries@.len(),
                forall|k: int| 0 <= k < i ==> (#[trigger] self.entries@[k]).user@ != user@,
            decreases self.entries@.len() - i,
        {
            if self.entries[i].user.same_as(user) {
                return Some(i);
            }
            i = i + 1;
        }
        None
    }

    /// The record kept under `key`, if there is one.
    pub fn lookup(&self, key: &UserClaimRegistry) -> (found: Option<UserClaim>)
        ensures
            match found {
                Some(claim) => self@.contains_key(key@) && claim@ == self@[key@],
                None => !self@.contains_key(key@),
            },
    {
        match self.find(key.identity()) {
            Some(i) => {
                proof {
                    use_type_invariant(self);
                    lemma_position(self.entries@, i as int);
                }
                Some(self.entries[i].clone())
            },
            None => None,
        }
    }

    /// Keeps `claim` under the identity that it names, in place of any
    /// earlier record of that identity.
    pub fn store(&mut self, claim: UserClaim)
        ensures
            final(self)@ == old(self)@.insert(claim.user@, claim@),
    {
        proof {
            use_type_invariant(&*self);
        }
        let found = self.find(&claim.user);
        // The entries leave the store while they change, so that the store
        // itself holds distinct identities at every step.
        let mut entries: Vec<UserClaim> = Vec::new();
        core::mem::swap(&mut self.entries, &mut entries);
        match found {
            Some(i) => {
                proof {
                    lemma_replace(entries@, i as int, claim);
                }
                entries.set(i, claim);
            },
            None => {
                proof {
                    lemma_append(entries@, claim);
                }
                entries.push(claim);
            },
        }
        self.entries = entries;
    }
}

} // verus!
