//! Lookup scopes: the (user, host) axis along which the platform stores
//! distinct values for the same key and domain.
//!
//! A full probe queries the four combinations of user and host scope in one
//! fixed order, given by [`scope_order`]; [`scope_list`] is its executable
//! counterpart.

use vstd::prelude::*;

verus! {

/// The user axis of a lookup scope.
#[derive(Clone, Copy, Debug, PartialEq, Eq, Structural)]
pub enum UserScope {
    Current,
    Any,
}

/// The host axis of a lookup scope.
#[derive(Clone, Copy, Debug, PartialEq, Eq, Structural)]
pub enum HostScope {
    Current,
    Any,
}

/// The fixed order in which the four scope combinations are queried and
/// reported: (current-user, any-host), (current-user, current-host),
/// (any-user, current-host), (any-user, any-host).
pub open spec fn scope_order() -> Seq<(UserScope, HostScope)> {
    seq![
        (UserScope::Current, HostScope::Any),
        (UserScope::Current, HostScope::Current),
        (UserScope::Any, HostScope::Current),
        (UserScope::Any, HostScope::Any),
    ]
}

/// The four scope combinations, in exactly the order of [`scope_order`].
pub fn scope_list() -> (r: Vec<(UserScope, HostScope)>)
    ensures
        r@ == scope_order(),
{
    let mut v: Vec<(UserScope, HostScope)> = Vec::new();
    v.push((UserScope::Current, HostScope::Any));
    v.push((UserScope::Current, HostScope::Current));
    v.push((UserScope::Any, HostScope::Current));
    v.push((UserScope::Any, HostScope::Any));
    proof {
        assert(v@ =~= scope_order());
    }
    v
}

} // verus!
