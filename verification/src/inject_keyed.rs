//! Extraction of services that are registered under a key.

use crate::context::{attached_scope, registrations, resolvable};
use crate::facade::{get_all_by_key, get_all_by_key_mut, get_by_key, get_by_key_mut};
use crate::identity::{key_name, service_name, AskedWithKey};
use crate::keyed::{Keyed, KeyedMut};
use crate::outcome::{
    answer_or_empty, answer_or_none, collection_agrees, optional_agrees, required_agrees,
};
use crate::rejection::{is_unregistered, require, Rejection};
use crate::report::unregistered_type_with_key_text;
use axum::http::Extensions;
use di::Type;
use vstd::prelude::*;

verus! {

/// Represents a container for an optional, injected, keyed service.
#[derive(Clone, Debug)]
pub struct TryInjectWithKey<TKey, TSvc: ?Sized + 'static>(pub Option<Keyed<TKey, TSvc>>);

/// Represents a container for a required, injected, keyed service.
#[derive(Clone, Debug)]
pub struct InjectWithKey<TKey, TSvc: ?Sized + 'static>(pub Keyed<TKey, TSvc>);

/// Represents a container for an optional, mutable, injected, keyed service.
#[derive(Clone, Debug)]
#[verifier::reject_recursive_types(TSvc)]
pub struct TryInjectWithKeyMut<TKey, TSvc: ?Sized + 'static>(pub Option<KeyedMut<TKey, TSvc>>);

/// Represents a container for a required, mutable, injected, keyed service.
#[derive(Clone, Debug)]
#[verifier::reject_recursive_types(TSvc)]
pub struct InjectWithKeyMut<TKey, TSvc: ?Sized + 'static>(pub KeyedMut<TKey, TSvc>);

/// Represents a container for a collection of injected, keyed services.
#[derive(Clone, Debug)]
pub struct InjectAllWithKey<TKey, TSvc: ?Sized + 'static>(pub Vec<Keyed<TKey, TSvc>>);

/// Represents a container for a collection of mutable, injected, keyed services.
#[derive(Clone, Debug)]
#[verifier::reject_recursive_types(TSvc)]
pub struct InjectAllWithKeyMut<TKey, TSvc: ?Sized + 'static>(pub Vec<KeyedMut<TKey, TSvc>>);

impl<TKey, TSvc: ?Sized + 'static> TryInjectWithKey<TKey, TSvc> {
    /// Wraps what a query for the keyed service came to: the container's
    /// answer where a scope was there to ask, and nothing where none was.
    pub fn of_found(found: Option<Option<Keyed<TKey, TSvc>>>) -> (injected: Self)
        ensures
            injected.0 == answer_or_none(found),
    {
        match found {
            Some(answer) => TryInjectWithKey(answer),
            None => TryInjectWithKey(None),
        }
    }

    /// Resolves the keyed service from the scope attached to the request
    /// context. It is absent where none is registered under the key, and where no
    /// scope is attached.
    ///
    /// The attached scope, if there is one, has to answer its queries.
    pub fn from_context(context: &Extensions, asked: &AskedWithKey<TKey, TSvc>) -> (injected: Self)
        requires
            resolvable(*context),
        ensures
            optional_agrees(registrations(*context, asked.shared()), injected.0),
    {
        let found = match attached_scope(context) {
            Some(scope) => Some(get_by_key(scope, asked)),
            None => None,
        };
        Self::of_found(found)
    }
}

impl<TKey, TSvc: ?Sized + 'static> InjectWithKey<TKey, TSvc> {
    /// Wraps what a query for the keyed service came to: the service that the
    /// container found, or else a rejection that names the identity given.
    /// No answer, and no scope to ask, both give the rejection.
    pub fn of_found(found: Option<Option<Keyed<TKey, TSvc>>>, named: &Type) -> (outcome: Result<
        Self,
        Rejection,
    >)
        ensures
            match answer_or_none(found) {
                Some(service) => outcome == Ok::<Self, Rejection>(InjectWithKey(service)),
                None => outcome is Err && is_unregistered(outcome->Err_0, *named),
            },
    {
        let answer = match found {
            Some(answer) => answer,
            None => None,
        };
        match require(answer, named) {
            Ok(service) => Ok(InjectWithKey(service)),
            Err(rejection) => Err(rejection),
        }
    }

    /// Resolves the keyed service from the scope attached to the request
    /// context. Where none is registered under the key, and where no scope is
    /// attached, the extraction fails with a server fault that names
    /// the service type and the key.
    ///
    /// The attached scope, if there is one, has to answer its queries.
    pub fn from_context(context: &Extensions, asked: &AskedWithKey<TKey, TSvc>) -> (outcome: Result<
        Self,
        Rejection,
    >)
        requires
            resolvable(*context),
        ensures
            required_agrees(registrations(*context, asked.shared()), asked.shared(), outcome),
            outcome matches Err(rejection) ==> key_name(asked.shared()) matches Some(key)
                && rejection.1@ == unregistered_type_with_key_text(
                service_name(asked.shared()),
                key,
            ),
    {
        let found = match attached_scope(context) {
            Some(scope) => Some(get_by_key(scope, asked)),
            None => None,
        };
        Self::of_found(found, asked.named())
    }
}

impl<TKey, TSvc: ?Sized + 'static> TryInjectWithKeyMut<TKey, TSvc> {
    /// Wraps what a query for the mutable keyed service came to: the container's
    /// answer where a scope was there to ask, and nothing where none was.
    pub fn of_found(found: Option<Option<KeyedMut<TKey, TSvc>>>) -> (injected: Self)
        ensures
            injected.0 == answer_or_none(found),
    {
        match found {
            Some(answer) => TryInjectWithKeyMut(answer),
            None => TryInjectWithKeyMut(None),
        }
    }

    /// Resolves the mutable keyed service from the scope attached to the request
    /// context. It is absent where none is registered under the key, and where no
    /// scope is attached.
    ///
    /// The attached scope, if there is one, has to answer its queries.
    pub fn from_context(context: &Extensions, asked: &AskedWithKey<TKey, TSvc>) -> (injected: Self)
        requires
            resolvable(*context),
        ensures
            optional_agrees(registrations(*context, asked.mutable()), injected.0),
    {
        let found = match attached_scope(context) {
            Some(scope) => Some(get_by_key_mut(scope, asked)),
            None => None,
        };
        Self::of_found(found)
    }
}

impl<TKey, TSvc: ?Sized + 'static> InjectWithKeyMut<TKey, TSvc> {
    /// Wraps what a query for the mutable keyed service came to: the service that the
    /// container found, or else a rejection that names the identity given.
    /// No answer, and no scope to ask, both give the rejection.
    pub fn of_found(found: Option<Option<KeyedMut<TKey, TSvc>>>, named: &Type) -> (outcome: Result<
        Self,
        Rejection,
    >)
        ensures
            match answer_or_none(found) {
                Some(service) => outcome == Ok::<Self, Rejection>(InjectWithKeyMut(service)),
                None => outcome is Err && is_unregistered(outcome->Err_0, *named),
            },
    {
        let answer = match found {
            Some(answer) => answer,
            None => None,
        };
        match require(answer, named) {
            Ok(service) => Ok(InjectWithKeyMut(service)),
            Err(rejection) => Err(rejection),
        }
    }

    /// Resolves the mutable keyed service from the scope attached to the request
    /// context. Where none is registered under the key, and where no scope is
    /// attached, the extraction fails with a server fault that names
    /// the service type and the key.
    ///
    /// The attached scope, if there is one, has to answer its queries.
    pub fn from_context(context: &Extensions, asked: &AskedWithKey<TKey, TSvc>) -> (outcome: Result<
        Self,
        Rejection,
    >)
        requires
            resolvable(*context),
        ensures
            required_agrees(registrations(*context, asked.mutable()), asked.shared(), outcome),
            outcome matches Err(rejection) ==> key_name(asked.shared()) matches Some(key)
                && rejection.1@ == unregistered_type_with_key_text(
                service_name(asked.shared()),
                key,
            ),
    {
        let found = match attached_scope(context) {
            Some(scope) => Some(get_by_key_mut(scope, asked)),
            None => None,
        };
        Self::of_found(found, asked.named())
    }
}

impl<TKey, TSvc: ?Sized + 'static> InjectAllWithKey<TKey, TSvc> {
    /// Wraps what a query for every keyed service came to: the services that
    /// the container yielded, each in its place, where a scope was there to
    /// ask, and none where none was.
    pub fn of_found(found: Option<Vec<Keyed<TKey, TSvc>>>) -> (injected: Self)
        ensures
            injected.0@ == answer_or_empty(found),
    {
        match found {
            Some(all) => InjectAllWithKey(all),
            None => InjectAllWithKey(Vec::with_capacity(0)),
        }
    }

    /// Resolves every keyed service registered under the key from the scope attached to
    /// the request context, in the order of registration. Where no scope is
    /// attached there is none.
    ///
    /// The attached scope, if there is one, has to answer its queries.
    pub fn from_context(context: &Extensions, asked: &AskedWithKey<TKey, TSvc>) -> (injected: Self)
        requires
            resolvable(*context),
        ensures
            collection_agrees(registrations(*context, asked.shared()), injected.0@),
    {
        let found = match attached_scope(context) {
            Some(scope) => Some(get_all_by_key(scope, asked)),
            None => None,
        };
        Self::of_found(found)
    }
}

impl<TKey, TSvc: ?Sized + 'static> InjectAllWithKeyMut<TKey, TSvc> {
    /// Wraps what a query for every mutable keyed service came to: the services that
    /// the container yielded, each in its place, where a scope was there to
    /// ask, and none where none was.
    pub fn of_found(found: Option<Vec<KeyedMut<TKey, TSvc>>>) -> (injected: Self)
        ensures
            injected.0@ == answer_or_empty(found),
    {
        match found {
            Some(all) => InjectAllWithKeyMut(all),
            None => InjectAllWithKeyMut(Vec::with_capacity(0)),
        }
    }

    /// Resolves every mutable keyed service registered under the key from the scope attached to
    /// the request context, in the order of registration. Where no scope is
    /// attached there is none.
    ///
    /// The attached scope, if there is one, has to answer its queries.
    pub fn from_context(context: &Extensions, asked: &AskedWithKey<TKey, TSvc>) -> (injected: Self)
        requires
            resolvable(*context),
        ensures
            collection_agrees(registrations(*context, asked.mutable()), injected.0@),
    {
        let found = match attached_scope(context) {
            Some(scope) => Some(get_all_by_key_mut(scope, asked)),
            None => None,
        };
        Self::of_found(found)
    }
}

} // verus!
