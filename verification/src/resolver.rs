//! The scope resolver: one preference lookup per requested scope, each raw
//! result handed to the decoder.
//!
//! Every function takes the store to consult, so the same verified logic
//! runs against any [`PrefStore`] contents; a driver that talks to the real
//! platform performs the raw lookups itself and reuses [`crate::value::decode`]
//! on what comes back.

use vstd::prelude::*;

use crate::scope::{scope_list, scope_order, HostScope, UserScope};
use crate::store::PrefStore;
use crate::value::{decode, spec_decode, PlistDataType, RawPrefValue};

verus! {

/// Whether the key is forced (administratively pinned) for the domain.
///
/// A key with no managed value is simply not forced; there is no error case.
pub fn get_pref_forced(store: &PrefStore, key: &String, domain: &String) -> (r: bool)
    ensures
        r == store.spec_is_forced(domain@, key@),
{
    store.is_forced(key, domain)
}

/// Look the key up at one exact (user, host) scope and decode the result.
pub fn get_pref_copyvalue(
    store: &PrefStore,
    key: &String,
    domain: &String,
    user: UserScope,
    host: HostScope,
) -> (r: Option<PlistDataType>)
    ensures
        r == spec_decode(store.spec_copy_value(domain@, key@, user, host)),
{
    decode(store.copy_value(key, domain, user, host))
}

/// Look the key up once per scope combination, in the fixed order of
/// [`scope_order`], and decode each result.
///
/// The result always has one element per scope combination, and element `i`
/// is the decoded value at exactly the `i`-th scope of [`scope_order`].
pub fn resolve_all_scopes(store: &PrefStore, key: &String, domain: &String) -> (r: Vec<
    Option<PlistDataType>,
>)
    ensures
        r@.len() == scope_order().len(),
        forall|i: int|
            0 <= i < r@.len() ==> r@[i] == spec_decode(
                store.spec_copy_value(domain@, key@, scope_order()[i].0, scope_order()[i].1),
            ),
{
    let scopes = scope_list();
    let mut results: Vec<Option<PlistDataType>> = Vec::new();
    let mut i: usize = 0;
    while i < scopes.len()
        invariant
            scopes@ == scope_order(),
            i <= scopes@.len(),
            results@.len() == i,
            forall|j: int|
                0 <= j < i ==> results@[j] == spec_decode(
                    store.spec_copy_value(domain@, key@, scope_order()[j].0, scope_order()[j].1),
                ),
        decreases scopes@.len() - i,
    {
        let (user, host) = scopes[i];
        results.push(get_pref_copyvalue(store, key, domain, user, host));
        i = i + 1;
    }
    results
}

/// Look the key up the way an application would (the platform's own
/// precedence across managed, user and host layers) and decode the result.
pub fn get_pref_copyappvalue(store: &PrefStore, key: &String, domain: &String) -> (r: Option<
    PlistDataType,
>)
    ensures
        r == spec_decode(store.spec_copy_app_value(domain@, key@)),
{
    decode(store.copy_app_value(key, domain))
}

/// Read the effective application value as an integer.
///
/// An absent value reads as 0. Anything present must be numeric: the probe
/// has no recovery for a non-numeric value here, so such inputs are ruled
/// out up front.
pub fn get_int_pref_copyappvalue(store: &PrefStore, key: &String, domain: &String) -> (r: i64)
    requires
        store.spec_copy_app_value(domain@, key@) is Null || store.spec_copy_app_value(
            domain@,
            key@,
        ) is Number,
    ensures
        (store.spec_copy_app_value(domain@, key@) is Null ==> r == 0),
        (store.spec_copy_app_value(domain@, key@) matches RawPrefValue::Number(n) ==> r == n),
{
    let raw = store.copy_app_value(key, domain);
    match decode(raw) {
        Some(v) => v.unwrap_int(),
        None => 0,
    }
}

} // verus!
