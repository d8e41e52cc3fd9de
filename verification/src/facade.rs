//! The container's queries, as the extractors use them.
//!
//! Each function here makes one query of `di::ServiceProvider`. A provider
//! keeps, under each identity, the services registered for it in the order of
//! registration, and never changes that list once it is built. `registered`
//! names its length, and the contracts below say of each query how its answer
//! depends on that length.
//!
//! A query takes the type it asks for as a type parameter, and the provider
//! works out the identity of that type by itself. The `asked` parameter is not
//! handed to the provider: it holds that same identity, which `Asked::of` and
//! `AskedWithKey::of` alone can put there, so that a contract can speak of it.
//!
//! A factory that the application registered runs inside a query, and the
//! provider unwraps what it returns as a reference of the type asked for.
//! `answers` names the providers on which that goes well, and every query
//! requires it.

use crate::identity::{Asked, AskedWithKey};
use crate::keyed::{Keyed, KeyedMut};
use di::{Ref, RefMut, ServiceProvider, Type};
use std::sync::RwLock;
use vstd::prelude::*;

verus! {

#[verifier::external_type_specification]
#[verifier::external_body]
pub struct ExServiceProvider(ServiceProvider);

#[verifier::external_type_specification]
#[verifier::external_body]
#[verifier::reject_recursive_types(T)]
pub struct ExRwLock<T: ?Sized>(RwLock<T>);

/// The number of services that a provider holds under an identity: as many
/// as `di::ServiceProvider::get_all` yields for a type of that identity.
pub uninterp spec fn registered(provider: ServiceProvider, identity: Type) -> nat;

/// Whether every query of a provider returns: each factory that it holds
/// returns when it is run, without asking for the service that it makes, and
/// what it returns is a reference of the type that it is registered under.
pub uninterp spec fn answers(provider: ServiceProvider) -> bool;

/// `di::ServiceProvider::create_scope`: a provider for a new scope, with
/// the registrations of `root` and with its factories.
#[verifier::external_body]
pub(crate) fn create_scope(root: &ServiceProvider) -> (scope: ServiceProvider)
    ensures
        forall|identity: Type| registered(scope, identity) == registered(*root, identity),
        answers(scope) == answers(*root),
{
    root.create_scope()
}

/// `di::ServiceProvider::get`: the service registered last for `T`, if any
/// is registered.
#[verifier::external_body]
pub(crate) fn get<T: ?Sized + 'static>(
    scope: &ServiceProvider,
    asked: &Asked<T>,
) -> (found: Option<Ref<T>>)
    requires
        answers(*scope),
    ensures
        found is Some <==> registered(*scope, asked.shared()) > 0,
{
    scope.get::<T>()
}

/// `di::ServiceProvider::get_mut`: the mutable service registered last for
/// `T`, if any is registered.
#[verifier::external_body]
pub(crate) fn get_mut<T: ?Sized + 'static>(
    scope: &ServiceProvider,
    asked: &Asked<T>,
) -> (found: Option<RefMut<T>>)
    requires
        answers(*scope),
    ensures
        found is Some <==> registered(*scope, asked.mutable()) > 0,
{
    scope.get_mut::<T>()
}

/// `di::ServiceProvider::get_all`: every service registered for `T`, in the
/// order of registration.
#[verifier::external_body]
pub(crate) fn get_all<T: ?Sized + 'static>(
    scope: &ServiceProvider,
    asked: &Asked<T>,
) -> (found: Vec<Ref<T>>)
    requires
        answers(*scope),
    ensures
        found@.len() == registered(*scope, asked.shared()),
{
    scope.get_all::<T>().collect()
}

/// `di::ServiceProvider::get_all_mut`: every mutable service registered for
/// `T`, in the order of registration.
#[verifier::external_body]
pub(crate) fn get_all_mut<T: ?Sized + 'static>(
    scope: &ServiceProvider,
    asked: &Asked<T>,
) -> (found: Vec<RefMut<T>>)
    requires
        answers(*scope),
    ensures
        found@.len() == registered(*scope, asked.mutable()),
{
    scope.get_all_mut::<T>().collect()
}

/// `di::ServiceProvider::get_by_key`: the service registered last for `TSvc`
/// under the key `TKey`, if any is registered, taken out of its
/// `di::KeyedRef`.
#[verifier::external_body]
pub(crate) fn get_by_key<TKey, TSvc: ?Sized + 'static>(
    scope: &ServiceProvider,
    asked: &AskedWithKey<TKey, TSvc>,
) -> (found: Option<Keyed<TKey, TSvc>>)
    requires
        answers(*scope),
    ensures
        found is Some <==> registered(*scope, asked.shared()) > 0,
{
    scope.get_by_key::<TKey, TSvc>().map(|keyed| Keyed::new(Ref::from(keyed)))
}

/// `di::ServiceProvider::get_by_key_mut`: the mutable service registered
/// last for `TSvc` under the key `TKey`, if any is registered, taken out of
/// its `di::KeyedRefMut`.
#[verifier::external_body]
pub(crate) fn get_by_key_mut<TKey, TSvc: ?Sized + 'static>(
    scope: &ServiceProvider,
    asked: &AskedWithKey<TKey, TSvc>,
) -> (found: Option<KeyedMut<TKey, TSvc>>)
    requires
        answers(*scope),
    ensures
        found is Some <==> registered(*scope, asked.mutable()) > 0,
{
    scope.get_by_key_mut::<TKey, TSvc>().map(|keyed| Keyed::new(Ref::from(keyed)))
}

/// `di::ServiceProvider::get_all_by_key`: every service registered for
/// `TSvc` under the key `TKey`, in the order of registration, each taken out
/// of its `di::KeyedRef`.
#[verifier::external_body]
pub(crate) fn get_all_by_key<TKey, TSvc: ?Sized + 'static>(
    scope: &ServiceProvider,
    asked: &AskedWithKey<TKey, TSvc>,
) -> (found: Vec<Keyed<TKey, TSvc>>)
    requires
        answers(*scope),
    ensures
        found@.len() == registered(*scope, asked.shared()),
{
    scope.get_all_by_key::<TKey, TSvc>().map(|keyed| Keyed::new(Ref::from(keyed))).collect()
}

/// `di::ServiceProvider::get_all_by_key_mut`: every mutable service
/// registered for `TSvc` under the key `TKey`, in the order of registration,
/// each taken out of its `di::KeyedRefMut`.
#[verifier::external_body]
pub(crate) fn get_all_by_key_mut<TKey, TSvc: ?Sized + 'static>(
    scope: &ServiceProvider,
    asked: &AskedWithKey<TKey, TSvc>,
) -> (found: Vec<KeyedMut<TKey, TSvc>>)
    requires
        answers(*scope),
    ensures
        found@.len() == registered(*scope, asked.mutable()),
{
    scope.get_all_by_key_mut::<TKey, TSvc>().map(|keyed| Keyed::new(Ref::from(keyed))).collect()
}

} // verus!
