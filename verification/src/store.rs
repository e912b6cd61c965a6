//! An in-memory layered preference store.
//!
//! The platform's preference subsystem is a layered key-value store: for each
//! (domain, key) pair a value may exist independently at every (user, host)
//! scope, and a managed ("forced") layer may pin the key regardless of the
//! per-scope values. This module models that store as plain data, so the
//! resolution logic can be verified against it and exercised against an
//! in-memory instance; a driver talks to the real platform store instead and
//! hands raw values to the same decoding logic.
//!
//! Writes append; a lookup returns the value of the most recent matching
//! write, so later writes shadow earlier ones.

use vstd::prelude::*;

use crate::scope::{HostScope, UserScope};
use crate::value::RawPrefValue;

verus! {

/// One write into a per-scope layer: a value for (domain, key) at a
/// (user, host) scope.
pub struct PrefEntry {
    pub domain: String,
    pub key: String,
    pub user: UserScope,
    pub host: HostScope,
    pub value: RawPrefValue,
}

/// One write into the managed layer: a forced value for (domain, key),
/// pinned across every scope.
pub struct ForcedEntry {
    pub domain: String,
    pub key: String,
    pub value: RawPrefValue,
}

/// The layered store: per-scope entries plus the managed layer.
pub struct PrefStore {
    pub entries: Vec<PrefEntry>,
    pub forced: Vec<ForcedEntry>,
}

/// Whether a per-scope entry is for exactly this (domain, key) pair at this
/// (user, host) scope.
pub open spec fn entry_matches(
    e: PrefEntry,
    domain: Seq<char>,
    key: Seq<char>,
    user: UserScope,
    host: HostScope,
) -> bool {
    &&& e.domain@ == domain
    &&& e.key@ == key
    &&& e.user == user
    &&& e.host == host
}

/// Whether a managed-layer entry is for exactly this (domain, key) pair.
pub open spec fn forced_matches(f: ForcedEntry, domain: Seq<char>, key: Seq<char>) -> bool {
    &&& f.domain@ == domain
    &&& f.key@ == key
}

/// The value of the most recent matching per-scope write, if any.
pub open spec fn spec_lookup(
    entries: Seq<PrefEntry>,
    domain: Seq<char>,
    key: Seq<char>,
    user: UserScope,
    host: HostScope,
) -> Option<RawPrefValue>
    decreases entries.len(),
{
    if entries.len() == 0 {
        None
    } else if entry_matches(entries.last(), domain, key, user, host) {
        Some(entries.last().value)
    } else {
        spec_lookup(entries.drop_last(), domain, key, user, host)
    }
}

/// The value of the most recent matching managed-layer write, if any.
pub open spec fn spec_forced_lookup(
    forced: Seq<ForcedEntry>,
    domain: Seq<char>,
    key: Seq<char>,
) -> Option<RawPrefValue>
    decreases forced.len(),
{
    if forced.len() == 0 {
        None
    } else if forced_matches(forced.last(), domain, key) {
        Some(forced.last().value)
    } else {
        spec_forced_lookup(forced.drop_last(), domain, key)
    }
}

/// Appending one per-scope write shadows earlier matching writes and leaves
/// every other (domain, key, user, host) lookup unchanged.
pub proof fn lemma_lookup_push(
    entries: Seq<PrefEntry>,
    e: PrefEntry,
    domain: Seq<char>,
    key: Seq<char>,
    user: UserScope,
    host: HostScope,
)
    ensures
        spec_lookup(entries.push(e), domain, key, user, host) == (if entry_matches(
            e,
            domain,
            key,
            user,
            host,
        ) {
            Some(e.value)
        } else {
            spec_lookup(entries, domain, key, user, host)
        }),
{
    let pushed = entries.push(e);
    assert(pushed.last() == e);
    assert(pushed.drop_last() =~= entries);
}

/// Appending one managed-layer write shadows earlier matching writes and
/// leaves every other (domain, key) managed lookup unchanged.
pub proof fn lemma_forced_lookup_push(
    forced: Seq<ForcedEntry>,
    f: ForcedEntry,
    domain: Seq<char>,
    key: Seq<char>,
)
    ensures
        spec_forced_lookup(forced.push(f), domain, key) == (if forced_matches(f, domain, key) {
            Some(f.value)
        } else {
            spec_forced_lookup(forced, domain, key)
        }),
{
    let pushed = forced.push(f);
    assert(pushed.last() == f);
    assert(pushed.drop_last() =~= forced);
}

/// A lookup over entries none of which match yields nothing.
pub proof fn lemma_lookup_no_match(
    entries: Seq<PrefEntry>,
    domain: Seq<char>,
    key: Seq<char>,
    user: UserScope,
    host: HostScope,
)
    requires
        forall|i: int| 0 <= i < entries.len() ==> !entry_matches(#[trigger] entries[i], domain, key, user, host),
    ensures
        spec_lookup(entries, domain, key, user, host) is None,
    decreases entries.len(),
{
    if entries.len() > 0 {
        assert(entries.last() == entries[entries.len() - 1]);
        assert(forall|i: int|
            0 <= i < entries.drop_last().len() ==> #[trigger] entries.drop_last()[i] == entries[i]);
        lemma_lookup_no_match(entries.drop_last(), domain, key, user, host);
    }
}

/// A managed lookup over entries none of which match yields nothing.
pub proof fn lemma_forced_lookup_no_match(forced: Seq<ForcedEntry>, domain: Seq<char>, key: Seq<char>)
    requires
        forall|i: int| 0 <= i < forced.len() ==> !forced_matches(#[trigger] forced[i], domain, key),
    ensures
        spec_forced_lookup(forced, domain, key) is None,
    decreases forced.len(),
{
    if forced.len() > 0 {
        assert(forced.last() == forced[forced.len() - 1]);
        assert(forall|i: int|
            0 <= i < forced.drop_last().len() ==> #[trigger] forced.drop_last()[i] == forced[i]);
        lemma_forced_lookup_no_match(forced.drop_last(), domain, key);
    }
}

impl PrefStore {
    /// The value stored for (domain, key) at exactly this scope, with
    /// absence rendered as `Null`, the way the platform hands back a null
    /// reference for an unset key.
    pub open spec fn spec_copy_value(
        self,
        domain: Seq<char>,
        key: Seq<char>,
        user: UserScope,
        host: HostScope,
    ) -> RawPrefValue {
        match spec_lookup(self.entries@, domain, key, user, host) {
            Some(v) => v,
            None => RawPrefValue::Null,
        }
    }

    /// Whether the managed layer pins (domain, key).
    pub open spec fn spec_is_forced(self, domain: Seq<char>, key: Seq<char>) -> bool {
        spec_forced_lookup(self.forced@, domain, key) is Some
    }

    /// The effective value an application would see: the managed layer wins
    /// outright; otherwise the most specific scope that has a value wins,
    /// from (current-user, current-host) down to (any-user, any-host).
    pub open spec fn spec_copy_app_value(self, domain: Seq<char>, key: Seq<char>) -> RawPrefValue {
        match spec_forced_lookup(self.forced@, domain, key) {
            Some(v) => v,
            None => match spec_lookup(
                self.entries@,
                domain,
                key,
                UserScope::Current,
                HostScope::Current,
            ) {
                Some(v) => v,
                None => match spec_lookup(
                    self.entries@,
                    domain,
                    key,
                    UserScope::Current,
                    HostScope::Any,
                ) {
                    Some(v) => v,
                    None => match spec_lookup(
                        self.entries@,
                        domain,
                        key,
                        UserScope::Any,
                        HostScope::Current,
                    ) {
                        Some(v) => v,
                        None => match spec_lookup(
                            self.entries@,
                            domain,
                            key,
                            UserScope::Any,
                            HostScope::Any,
                        ) {
                            Some(v) => v,
                            None => RawPrefValue::Null,
                        },
                    },
                },
            },
        }
    }

    /// Whether any layer holds a write for (domain, key), at any scope.
    pub open spec fn spec_key_exists(self, domain: Seq<char>, key: Seq<char>) -> bool {
        ||| exists|i: int|
            0 <= i < self.entries@.len() && (#[trigger] self.entries@[i]).domain@ == domain
                && self.entries@[i].key@ == key
        ||| exists|i: int|
            0 <= i < self.forced@.len() && (#[trigger] self.forced@[i]).domain@ == domain
                && self.forced@[i].key@ == key
    }

    /// An empty store: no per-scope writes, nothing managed.
    pub fn new() -> (r: PrefStore)
        ensures
            r.entries@ == Seq::<PrefEntry>::empty(),
            r.forced@ == Seq::<ForcedEntry>::empty(),
    {
        PrefStore { entries: Vec::new(), forced: Vec::new() }
    }

    /// Write a value for (domain, key) at one (user, host) scope.
    ///
    /// The new write shadows any earlier write at the same coordinates and
    /// leaves every other lookup, and the managed layer, unchanged.
    pub fn set_value(
        &mut self,
        domain: &str,
        key: &str,
        user: UserScope,
        host: HostScope,
        value: RawPrefValue,
    )
        ensures
            final(self).entries@.len() == old(self).entries@.len() + 1,
            final(self).entries@.drop_last() == old(self).entries@,
            final(self).entries@.last().domain@ == domain@,
            final(self).entries@.last().key@ == key@,
            final(self).entries@.last().user == user,
            final(self).entries@.last().host == host,
            final(self).entries@.last().value == value,
            final(self).forced@ == old(self).forced@,
            spec_lookup(final(self).entries@, domain@, key@, user, host) == Some(value),
            final(self).spec_copy_value(domain@, key@, user, host) == value,
            forall|d: Seq<char>, k: Seq<char>, u: UserScope, h: HostScope|
                !(d == domain@ && k == key@ && u == user && h == host)
                    ==> #[trigger] spec_lookup(final(self).entries@, d, k, u, h)
                    == spec_lookup(old(self).entries@, d, k, u, h),
    {
        let e = PrefEntry { domain: domain.to_owned(), key: key.to_owned(), user, host, value };
        let ghost ge = e;
        self.entries.push(e);
        proof {
            assert(self.entries@ == old(self).entries@.push(ge));
            assert(self.entries@.drop_last() =~= old(self).entries@);
            lemma_lookup_push(old(self).entries@, ge, domain@, key@, user, host);
            assert forall|d: Seq<char>, k: Seq<char>, u: UserScope, h: HostScope|
                !(d == domain@ && k == key@ && u == user && h == host)
                implies #[trigger] spec_lookup(final(self).entries@, d, k, u, h)
                == spec_lookup(old(self).entries@, d, k, u, h) by {
                lemma_lookup_push(old(self).entries@, ge, d, k, u, h);
            }
        }
    }

    /// Write a managed (forced) value for (domain, key).
    ///
    /// The new write shadows any earlier managed write for the same pair and
    /// leaves the per-scope layers unchanged.
    pub fn set_forced(&mut self, domain: &str, key: &str, value: RawPrefValue)
        ensures
            final(self).forced@.len() == old(self).forced@.len() + 1,
            final(self).forced@.drop_last() == old(self).forced@,
            final(self).forced@.last().domain@ == domain@,
            final(self).forced@.last().key@ == key@,
            final(self).forced@.last().value == value,
            final(self).entries@ == old(self).entries@,
            spec_forced_lookup(final(self).forced@, domain@, key@) == Some(value),
            final(self).spec_is_forced(domain@, key@),
            forall|d: Seq<char>, k: Seq<char>|
                !(d == domain@ && k == key@) ==> #[trigger] spec_forced_lookup(
                    final(self).forced@,
                    d,
                    k,
                ) == spec_forced_lookup(old(self).forced@, d, k),
    {
        let f = ForcedEntry { domain: domain.to_owned(), key: key.to_owned(), value };
        let ghost gf = f;
        self.forced.push(f);
        proof {
            assert(self.forced@ == old(self).forced@.push(gf));
            assert(self.forced@.drop_last() =~= old(self).forced@);
            lemma_forced_lookup_push(old(self).forced@, gf, domain@, key@);
            assert forall|d: Seq<char>, k: Seq<char>|
                !(d == domain@ && k == key@) implies #[trigger] spec_forced_lookup(
                final(self).forced@,
                d,
                k,
            ) == spec_forced_lookup(old(self).forced@, d, k) by {
                lemma_forced_lookup_push(old(self).forced@, gf, d, k);
            }
        }
    }

    /// The stored value for (domain, key) at exactly this scope, or `None`
    /// when no write covers it.
    pub fn lookup_value(
        &self,
        key: &String,
        domain: &String,
        user: UserScope,
        host: HostScope,
    ) -> (r: Option<RawPrefValue>)
        ensures
            r == spec_lookup(self.entries@, domain@, key@, user, host),
    {
        let mut i: usize = self.entries.len();
        proof {
            assert(self.entries@.take(i as int) =~= self.entries@);
        }
        while i > 0
            invariant
                i <= self.entries@.len(),
                spec_lookup(self.entries@, domain@, key@, user, host) == spec_lookup(
                    self.entries@.take(i as int),
                    domain@,
                    key@,
                    user,
                    host,
                ),
            decreases i,
        {
            let e = &self.entries[i - 1];
            proof {
                assert(self.entries@.take(i as int).last() == self.entries@[i - 1]);
                assert(self.entries@.take(i as int).drop_last() =~= self.entries@.take(i - 1));
            }
            if e.domain == *domain && e.key == *key && e.user == user && e.host == host {
                return Some(e.value.clone());
            }
            i = i - 1;
        }
        proof {
            assert(self.entries@.take(0).len() == 0);
        }
        None
    }

    /// The stored value for (domain, key) at exactly this scope, with
    /// absence rendered as `Null`.
    pub fn copy_value(
        &self,
        key: &String,
        domain: &String,
        user: UserScope,
        host: HostScope,
    ) -> (r: RawPrefValue)
        ensures
            r == self.spec_copy_value(domain@, key@, user, host),
    {
        match self.lookup_value(key, domain, user, host) {
            Some(v) => v,
            None => RawPrefValue::Null,
        }
    }

    /// The managed value for (domain, key), or `None` when the managed layer
    /// does not cover it.
    pub fn forced_value(&self, key: &String, domain: &String) -> (r: Option<RawPrefValue>)
        ensures
            r == spec_forced_lookup(self.forced@, domain@, key@),
    {
        let mut i: usize = self.forced.len();
        proof {
            assert(self.forced@.take(i as int) =~= self.forced@);
        }
        while i > 0
            invariant
                i <= self.forced@.len(),
                spec_forced_lookup(self.forced@, domain@, key@) == spec_forced_lookup(
                    self.forced@.take(i as int),
                    domain@,
                    key@,
                ),
            decreases i,
        {
            let f = &self.forced[i - 1];
            proof {
                assert(self.forced@.take(i as int).last() == self.forced@[i - 1]);
                assert(self.forced@.take(i as int).drop_last() =~= self.forced@.take(i - 1));
            }
            if f.domain == *domain && f.key == *key {
                return Some(f.value.clone());
            }
            i = i - 1;
        }
        proof {
            assert(self.forced@.take(0).len() == 0);
        }
        None
    }

    /// Whether the managed layer pins (domain, key); a key nobody manages is
    /// simply not forced, never an error.
    pub fn is_forced(&self, key: &String, domain: &String) -> (r: bool)
        ensures
            r == self.spec_is_forced(domain@, key@),
    {
        self.forced_value(key, domain).is_some()
    }

    /// The effective value an application would see for (domain, key), with
    /// absence rendered as `Null`.
    pub fn copy_app_value(&self, key: &String, domain: &String) -> (r: RawPrefValue)
        ensures
            r == self.spec_copy_app_value(domain@, key@),
    {
        match self.forced_value(key, domain) {
            Some(v) => v,
            None => match self.lookup_value(key, domain, UserScope::Current, HostScope::Current) {
                Some(v) => v,
                None => match self.lookup_value(key, domain, UserScope::Current, HostScope::Any) {
                    Some(v) => v,
                    None => match self.lookup_value(
                        key,
                        domain,
                        UserScope::Any,
                        HostScope::Current,
                    ) {
                        Some(v) => v,
                        None => match self.lookup_value(
                            key,
                            domain,
                            UserScope::Any,
                            HostScope::Any,
                        ) {
                            Some(v) => v,
                            None => RawPrefValue::Null,
                        },
                    },
                },
            },
        }
    }
}

/// A managed (forced) value decides the effective application value: when
/// the managed layer pins (domain, key) to `v`, the effective value is `v`,
/// whatever the per-scope layers hold.
pub proof fn lemma_forced_value_wins(
    store: PrefStore,
    domain: Seq<char>,
    key: Seq<char>,
    v: RawPrefValue,
)
    requires
        spec_forced_lookup(store.forced@, domain, key) == Some(v),
    ensures
        store.spec_copy_app_value(domain, key) == v,
{
}

/// A key with no write in any layer is not forced: `is_forced` answers
/// `false` for it rather than failing.
pub proof fn lemma_missing_key_not_forced(store: PrefStore, domain: Seq<char>, key: Seq<char>)
    requires
        !store.spec_key_exists(domain, key),
    ensures
        !store.spec_is_forced(domain, key),
{
    assert(forall|i: int|
        0 <= i < store.forced@.len() ==> !forced_matches(#[trigger] store.forced@[i], domain, key));
    lemma_forced_lookup_no_match(store.forced@, domain, key);
}

/// A key with no write in any layer resolves to absence everywhere: every
/// per-scope lookup and the effective application lookup come back `Null`,
/// and the key is not forced.
pub proof fn lemma_missing_key_resolves_absent(store: PrefStore, domain: Seq<char>, key: Seq<char>)
    requires
        !store.spec_key_exists(domain, key),
    ensures
        forall|u: UserScope, h: HostScope|
            #[trigger] store.spec_copy_value(domain, key, u, h) == RawPrefValue::Null,
        store.spec_copy_app_value(domain, key) == RawPrefValue::Null,
        !store.spec_is_forced(domain, key),
{
    assert forall|u: UserScope, h: HostScope|
        (#[trigger] spec_lookup(store.entries@, domain, key, u, h)) is None by {
        assert(forall|i: int|
            0 <= i < store.entries@.len() ==> !entry_matches(
                #[trigger] store.entries@[i],
                domain,
                key,
                u,
                h,
            ));
        lemma_lookup_no_match(store.entries@, domain, key, u, h);
    }
    lemma_missing_key_not_forced(store, domain, key);
    assert(spec_lookup(store.entries@, domain, key, UserScope::Current, HostScope::Current) is None);
    assert(spec_lookup(store.entries@, domain, key, UserScope::Current, HostScope::Any) is None);
    assert(spec_lookup(store.entries@, domain, key, UserScope::Any, HostScope::Current) is None);
    assert(spec_lookup(store.entries@, domain, key, UserScope::Any, HostScope::Any) is None);
}

} // verus!
