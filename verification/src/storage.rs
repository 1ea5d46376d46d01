//! Persisted record types and the per-account mint-record store.
//!
//! The store is an explicit key-value abstraction (get / insert by account),
//! backed by a vector of entries; lookups return the first entry with a
//! matching key and inserts overwrite it, so the store behaves as a map.

use vstd::prelude::*;

verus! {

/// An account identity. The gateway never inspects an identity beyond
/// comparing it for equality, so it carries a plain numeric handle; the
/// host boundary interns its textual account names into these handles.
#[derive(Clone, Copy, PartialEq, Eq, Structural, Hash, Debug)]
pub struct AccountId {
    pub id: u64,
}

/// Namespace tags for the persisted collections of the contract.
#[derive(Clone, Copy, PartialEq, Eq, Structural, Debug)]
pub enum StorageKey {
    UserMints,
}

/// One account's running mint total for one day window.
#[derive(Clone, Copy, PartialEq, Eq, Structural, Debug)]
pub struct UserDailyMint {
    pub day: u64,
    pub minted: u128,
}

/// A snapshot of the gateway's configuration, as reported by queries.
#[derive(Clone, Copy, PartialEq, Eq, Structural, Debug)]
pub struct Config {
    pub minter: AccountId,
    pub active: bool,
    pub daily_quota: u128,
    pub user_quota: u128,
    pub daily_use: u128,
}

/// What `lookup` finds for a key in a sequence of entries: the value of the
/// first entry with that key, if any.
pub open spec fn lookup(s: Seq<(AccountId, UserDailyMint)>, key: AccountId) -> Option<UserDailyMint>
    decreases s.len(),
{
    if s.len() == 0 {
        None
    } else if s[0].0 == key {
        Some(s[0].1)
    } else {
        lookup(s.drop_first(), key)
    }
}

/// The per-account mint-record store: a key-value map from account identity
/// to that account's daily mint record.
pub struct UserMintMap {
    prefix: StorageKey,
    entries: Vec<(AccountId, UserDailyMint)>,
}

impl UserMintMap {
    /// The record stored for `key`, if any.
    pub closed spec fn spec_get(self, key: AccountId) -> Option<UserDailyMint> {
        lookup(self.entries@, key)
    }

    pub fn new(prefix: StorageKey) -> (r: Self)
        ensures
            forall|k: AccountId| r.spec_get(k) is None,
    {
        UserMintMap { prefix, entries: Vec::new() }
    }

    pub fn get(&self, key: &AccountId) -> (r: Option<UserDailyMint>)
        ensures
            r == self.spec_get(*key),
    {
        let n = self.entries.len();
        let mut i: usize = 0;
        while i < n
            invariant
                n == self.entries@.len(),
                i <= n,
                forall|j: int| 0 <= j < i ==> self.entries@[j].0 != *key,
            decreases n - i,
        {
            if self.entries[i].0 == *key {
                proof {
                    lemma_lookup_found(self.entries@, *key, i as int);
                }
                return Some(self.entries[i].1);
            }
            i = i + 1;
        }
        proof {
            lemma_lookup_absent(self.entries@, *key);
        }
        None
    }

    pub fn insert(&mut self, key: AccountId, value: UserDailyMint)
        ensures
            final(self).spec_get(key) == Some(value),
            forall|k: AccountId| k != key ==> final(self).spec_get(k) == old(self).spec_get(k),
    {
        let n = self.entries.len();
        let mut i: usize = 0;
        while i < n
            invariant
                n == self.entries@.len(),
                i <= n,
                forall|j: int| 0 <= j < i ==> self.entries@[j].0 != key,
                self == old(self),
            decreases n - i,
        {
            if self.entries[i].0 == key {
                let ghost pre = self.entries@;
                self.entries[i] = (key, value);
                proof {
                    lemma_lookup_update(pre, key, value, i as int);
                }
                return;
            }
            i = i + 1;
        }
        let ghost pre = self.entries@;
        self.entries.push((key, value));
        proof {
            lemma_lookup_push(pre, key, value);
            lemma_lookup_absent(pre, key);
        }
    }
}

impl UserMintMap {
    /// Rebuilds a store from a plain entry list, as the persistence
    /// boundary hands it back: for every key the store then holds what
    /// `lookup` finds in the list.
    pub fn from_entries(entries: Vec<(AccountId, UserDailyMint)>) -> (r: Self)
        ensures
            forall|k: AccountId| r.spec_get(k) == lookup(entries@, k),
    {
        let mut r = UserMintMap { prefix: StorageKey::UserMints, entries: Vec::new() };
        let n = entries.len();
        let mut i: usize = n;
        proof {
            assert(entries@.subrange(n as int, n as int) =~= Seq::<(
                AccountId,
                UserDailyMint,
            )>::empty());
        }
        while i > 0
            invariant
                i <= n,
                n == entries@.len(),
                forall|k: AccountId| r.spec_get(k) == lookup(entries@.subrange(i as int, n as int), k),
            decreases i,
        {
            i = i - 1;
            let ghost pre = entries@.subrange(i as int + 1, n as int);
            r.insert(entries[i].0, entries[i].1);
            proof {
                let cur = entries@.subrange(i as int, n as int);
                assert(cur[0] == entries@[i as int]);
                assert(cur.drop_first() =~= pre);
            }
        }
        proof {
            assert(entries@.subrange(0, n as int) =~= entries@);
        }
        r
    }

    /// The plain entry list behind the store, for the persistence boundary
    /// to write out: `lookup` on it agrees with the store everywhere.
    pub fn entries(&self) -> (r: &Vec<(AccountId, UserDailyMint)>)
        ensures
            forall|k: AccountId| lookup(r@, k) == self.spec_get(k),
    {
        &self.entries
    }

    /// Whether every record in the store stays at or under `bound`. A `true`
    /// answer covers every key; a backing list with shadowed duplicate
    /// entries may make the answer conservatively `false`.
    pub fn all_minted_le(&self, bound: u128) -> (r: bool)
        ensures
            r ==> forall|k: AccountId|
                #[trigger] self.spec_get(k) matches Some(rec) ==> rec.minted <= bound,
    {
        let n = self.entries.len();
        let mut i: usize = 0;
        while i < n
            invariant
                i <= n,
                n == self.entries@.len(),
                forall|j: int| 0 <= j < i ==> self.entries@[j].1.minted <= bound,
            decreases n - i,
        {
            if self.entries[i].1.minted > bound {
                return false;
            }
            i = i + 1;
        }
        proof {
            assert forall|k: AccountId| (#[trigger] self.spec_get(k)) is Some implies self.spec_get(
                k,
            )->Some_0.minted <= bound by {
                lemma_lookup_is_entry(self.entries@, k);
            }
        }
        true
    }
}

/// Whatever `lookup` finds is the value of some entry with that key.
proof fn lemma_lookup_is_entry(s: Seq<(AccountId, UserDailyMint)>, key: AccountId)
    requires
        lookup(s, key) is Some,
    ensures
        exists|i: int|
            0 <= i < s.len() && s[i].0 == key && #[trigger] s[i].1 == lookup(s, key)->Some_0,
    decreases s.len(),
{
    if s.len() > 0 && s[0].0 != key {
        lemma_lookup_is_entry(s.drop_first(), key);
        let i = choose|i: int|
            0 <= i < s.drop_first().len() && s.drop_first()[i].0 == key && #[trigger] s.drop_first()[i].1
                == lookup(s.drop_first(), key)->Some_0;
        assert(s[i + 1] == s.drop_first()[i]);
    }
}

/// If no entry before index `i` has key `key` and the entry at `i` does,
/// then `lookup` finds the entry at `i`.
proof fn lemma_lookup_found(s: Seq<(AccountId, UserDailyMint)>, key: AccountId, i: int)
    requires
        0 <= i < s.len(),
        forall|j: int| 0 <= j < i ==> s[j].0 != key,
        s[i].0 == key,
    ensures
        lookup(s, key) == Some(s[i].1),
    decreases i,
{
    if i > 0 {
        lemma_lookup_found(s.drop_first(), key, i - 1);
    }
}

/// If no entry has key `key`, `lookup` finds nothing.
proof fn lemma_lookup_absent(s: Seq<(AccountId, UserDailyMint)>, key: AccountId)
    requires
        forall|j: int| 0 <= j < s.len() ==> s[j].0 != key,
    ensures
        lookup(s, key) is None,
    decreases s.len(),
{
    if s.len() > 0 {
        lemma_lookup_absent(s.drop_first(), key);
    }
}

/// Appending an entry changes `lookup` only for keys it found nothing for,
/// and only at the appended key.
proof fn lemma_lookup_push(s: Seq<(AccountId, UserDailyMint)>, key: AccountId, value: UserDailyMint)
    ensures
        lookup(s, key) is None ==> lookup(s.push((key, value)), key) == Some(value),
        forall|k: AccountId|
            k != key || lookup(s, k) is Some ==> lookup(s.push((key, value)), k) == lookup(s, k),
    decreases s.len(),
{
    let t = s.push((key, value));
    if s.len() == 0 {
        assert(t[0] == (key, value));
        assert(t.drop_first() =~= Seq::<(AccountId, UserDailyMint)>::empty());
        assert(lookup(t, key) == Some(value));
        assert forall|k: AccountId|
            k != key || lookup(s, k) is Some implies lookup(t, k) == lookup(s, k) by {
            assert(k != key);
            assert(lookup(t, k) == lookup(t.drop_first(), k));
            assert(lookup(t.drop_first(), k) is None);
        }
    } else {
        lemma_lookup_push(s.drop_first(), key, value);
        assert(t[0] == s[0]);
        assert(t.drop_first() =~= s.drop_first().push((key, value)));
        if lookup(s, key) is None {
            assert(s[0].0 != key);
            assert(lookup(t, key) == lookup(t.drop_first(), key));
            assert(lookup(s.drop_first(), key) is None);
            assert(lookup(t, key) == Some(value));
        }
        assert forall|k: AccountId|
            k != key || lookup(s, k) is Some implies lookup(t, k) == lookup(s, k) by {
            if s[0].0 == k {
                assert(lookup(t, k) == Some(t[0].1));
                assert(lookup(s, k) == Some(s[0].1));
            } else {
                assert(lookup(t, k) == lookup(t.drop_first(), k));
                assert(lookup(s, k) == lookup(s.drop_first(), k));
                assert(k != key || lookup(s.drop_first(), k) is Some);
                assert(lookup(s.drop_first().push((key, value)), k) == lookup(s.drop_first(), k));
            }
        }
    }
}

/// Overwriting the first entry that holds `key` makes `lookup` find the new
/// value there and leaves every other key's result unchanged.
proof fn lemma_lookup_update(
    s: Seq<(AccountId, UserDailyMint)>,
    key: AccountId,
    value: UserDailyMint,
    i: int,
)
    requires
        0 <= i < s.len(),
        forall|j: int| 0 <= j < i ==> s[j].0 != key,
        s[i].0 == key,
    ensures
        lookup(s.update(i, (key, value)), key) == Some(value),
        forall|k: AccountId|
            k != key ==> lookup(s.update(i, (key, value)), k) == lookup(s, k),
    decreases i,
{
    let t = s.update(i, (key, value));
    if i == 0 {
        assert(t[0] == (key, value));
        assert(lookup(t, key) == Some(value));
        assert forall|k: AccountId| k != key implies lookup(t, k) == lookup(s, k) by {
            assert(t.drop_first() =~= s.drop_first());
            assert(lookup(t, k) == lookup(t.drop_first(), k));
            assert(s[0].0 == key);
            assert(lookup(s, k) == lookup(s.drop_first(), k));
        }
    } else {
        lemma_lookup_update(s.drop_first(), key, value, i - 1);
        assert(t.drop_first() =~= s.drop_first().update(i - 1, (key, value)));
        assert(t[0] == s[0]);
        assert(s[0].0 != key);
        assert(lookup(t, key) == lookup(t.drop_first(), key));
        assert(lookup(t, key) == Some(value));
        assert forall|k: AccountId| k != key implies lookup(t, k) == lookup(s, k) by {
            if s[0].0 == k {
                assert(lookup(t, k) == Some(t[0].1));
                assert(lookup(s, k) == Some(s[0].1));
            } else {
                assert(lookup(t, k) == lookup(t.drop_first(), k));
                assert(lookup(s, k) == lookup(s.drop_first(), k));
                assert(lookup(s.drop_first().update(i - 1, (key, value)), k) == lookup(
                    s.drop_first(),
                    k,
                ));
            }
        }
    }
}

} // verus!
