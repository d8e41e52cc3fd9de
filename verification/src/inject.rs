//! Extraction of services that are registered without a key.

use crate::context::{attached_scope, registrations, resolvable};
use crate::facade::{get, get_all, get_all_mut, get_mut};
use crate::identity::{service_name, Asked};
use crate::outcome::{
    answer_or_empty, answer_or_none, collection_agrees, optional_agrees, required_agrees,
};
use crate::rejection::{is_unregistered, require, Rejection};
use crate::report::unregistered_type_text;
use axum::http::Extensions;
use di::{Ref, RefMut, Type};
use vstd::prelude::*;

verus! {

/// Represents a container for an optional, injected service.
#[derive(Clone, Debug)]
pub struct TryInject<T: ?Sized>(pub Option<Ref<T>>);

/// Represents a container for a required, injected service.
#[derive(Clone, Debug)]
pub struct Inject<T: ?Sized>(pub Ref<T>);

/// Represents a container for an optional, mutable, injected service.
#[derive(Clone, Debug)]
#[verifier::reject_recursive_types(T)]
pub struct TryInjectMut<T: ?Sized>(pub Option<RefMut<T>>);

/// Represents a container for a required, mutable, injected service.
#[derive(Clone, Debug)]
#[verifier::reject_recursive_types(T)]
pub struct InjectMut<T: ?Sized>(pub RefMut<T>);

/// Represents a container for a collection of injected services.
#[derive(Clone, Debug)]
pub struct InjectAll<T: ?Sized>(pub Vec<Ref<T>>);

/// Represents a container for a collection of mutable, injected services.
#[derive(Clone, Debug)]
#[verifier::reject_recursive_types(T)]
pub struct InjectAllMut<T: ?Sized>(pub Vec<RefMut<T>>);

impl<T: ?Sized + 'static> TryInject<T> {
    /// Wraps what a query for the service came to: the container's
    /// answer where a scope was there to ask, and nothing where none was.
    pub fn of_found(found: Option<Option<Ref<T>>>) -> (injected: Self)
        ensures
            injected.0 == answer_or_none(found),
    {
        match found {
            Some(answer) => TryInject(answer),
            None => TryInject(None),
        }
    }

    /// Resolves the service from the scope attached to the request
    /// context. It is absent where none is registered, and where no
    /// scope is attached.
    ///
    /// The attached scope, if there is one, has to answer its queries.
    pub fn from_context(context: &Extensions, asked: &Asked<T>) -> (injected: Self)
        requires
            resolvable(*context),
        ensures
            optional_agrees(registrations(*context, asked.shared()), injected.0),
    {
        let found = match attached_scope(context) {
            Some(scope) => Some(get(scope, asked)),
            None => None,
        };
        Self::of_found(found)
    }
}

impl<T: ?Sized + 'static> Inject<T> {
    /// Wraps what a query for the service came to: the service that the
    /// container found, or else a rejection that names the identity given.
    /// No answer, and no scope to ask, both give the rejection.
    pub fn of_found(found: Option<Option<Ref<T>>>, named: &Type) -> (outcome: Result<
        Self,
        Rejection,
    >)
        ensures
            match answer_or_none(found) {
                Some(service) => outcome == Ok::<Self, Rejection>(Inject(service)),
                None => outcome is Err && is_unregistered(outcome->Err_0, *named),
            },
    {
        let answer = match found {
            Some(answer) => answer,
            None => None,
        };
        match require(answer, named) {
            Ok(service) => Ok(Inject(service)),
            Err(rejection) => Err(rejection),
        }
    }

    /// Resolves the service from the scope attached to the request
    /// context. Where none is registered, and where no scope is
    /// attached, the extraction fails with a server fault that names
    /// the service type.
    ///
    /// The attached scope, if there is one, has to answer its queries.
    pub fn from_context(context: &Extensions, asked: &Asked<T>) -> (outcome: Result<
        Self,
        Rejection,
    >)
        requires
            resolvable(*context),
        ensures
            required_agrees(registrations(*context, asked.shared()), asked.shared(), outcome),
            outcome matches Err(rejection) ==> rejection.1@ == unregistered_type_text(
                service_name(asked.shared()),
            ),
    {
        let found = match attached_scope(context) {
            Some(scope) => Some(get(scope, asked)),
            None => None,
        };
        Self::of_found(found, asked.named())
    }
}

impl<T: ?Sized + 'static> TryInjectMut<T> {
    /// Wraps what a query for the mutable service came to: the container's
    /// answer where a scope was there to ask, and nothing where none was.
    pub fn of_found(found: Option<Option<RefMut<T>>>) -> (injected: Self)
        ensures
            injected.0 == answer_or_none(found),
    {
        match found {
            Some(answer) => TryInjectMut(answer),
            None => TryInjectMut(None),
        }
    }

    /// Resolves the mutable service from the scope attached to the request
    /// context. It is absent where none is registered, and where no
    /// scope is attached.
    ///
    /// The attached scope, if there is one, has to answer its queries.
    pub fn from_context(context: &Extensions, asked: &Asked<T>) -> (injected: Self)
        requires
            resolvable(*context),
        ensures
            optional_agrees(registrations(*context, asked.mutable()), injected.0),
    {
        let found = match attached_scope(context) {
            Some(scope) => Some(get_mut(scope, asked)),
            None => None,
        };
        Self::of_found(found)
    }
}

impl<T: ?Sized + 'static> InjectMut<T> {
    /// Wraps what a query for the mutable service came to: the service that the
    /// container found, or else a rejection that names the identity given.
    /// No answer, and no scope to ask, both give the rejection.
    pub fn of_found(found: Option<Option<RefMut<T>>>, named: &Type) -> (outcome: Result<
        Self,
        Rejection,
    >)
        ensures
            match answer_or_none(found) {
                Some(service) => outcome == Ok::<Self, Rejection>(InjectMut(service)),
                None => outcome is Err && is_unregistered(outcome->Err_0, *named),
            },
    {
        let answer = match found {
            Some(answer) => answer,
            None => None,
        };
        match require(answer, named) {
            Ok(service) => Ok(InjectMut(service)),
            Err(rejection) => Err(rejection),
        }
    }

    /// Resolves the mutable service from the scope attached to the request
    /// context. Where none is registered, and where no scope is
    /// attached, the extraction fails with a server fault that names
    /// the service type.
    ///
    /// The attached scope, if there is one, has to answer its queries.
    pub fn from_context(context: &Extensions, asked: &Asked<T>) -> (outcome: Result<
        Self,
        Rejection,
    >)
        requires
            resolvable(*context),
        ensures
            required_agrees(registrations(*context, asked.mutable()), asked.shared(), outcome),
            outcome matches Err(rejection) ==> rejection.1@ == unregistered_type_text(
                service_name(asked.shared()),
            ),
    {
        let found = match attached_scope(context) {
            Some(scope) => Some(get_mut(scope, asked)),
            None => None,
        };
        Self::of_found(found, asked.named())
    }
}

impl<T: ?Sized + 'static> InjectAll<T> {
    /// Wraps what a query for every service came to: the services that
    /// the container yielded, each in its place, where a scope was there to
    /// ask, and none where none was.
    pub fn of_found(found: Option<Vec<Ref<T>>>) -> (injected: Self)
        ensures
            injected.0@ == answer_or_empty(found),
    {
        match found {
            Some(all) => InjectAll(all),
            None => InjectAll(Vec::with_capacity(0)),
        }
    }

    /// Resolves every service registered from the scope attached to
    /// the request context, in the order of registration. Where no scope is
    /// attached there is none.
    ///
    /// The attached scope, if there is one, has to answer its queries.
    pub fn from_context(context: &Extensions, asked: &Asked<T>) -> (injected: Self)
        requires
            resolvable(*context),
        ensures
            collection_agrees(registrations(*context, asked.shared()), injected.0@),
    {
        let found = match attached_scope(context) {
            Some(scope) => Some(get_all(scope, asked)),
            None => None,
        };
        Self::of_found(found)
    }
}

impl<T: ?Sized + 'static> InjectAllMut<T> {
    /// Wraps what a query for every mutable service came to: the services that
    /// the container yielded, each in its place, where a scope was there to
    /// ask, and none where none was.
    pub fn of_found(found: Option<Vec<RefMut<T>>>) -> (injected: Self)
        ensures
            injected.0@ == answer_or_empty(found),
    {
        match found {
            Some(all) => InjectAllMut(all),
            None => InjectAllMut(Vec::with_capacity(0)),
        }
    }

    /// Resolves every mutable service registered from the scope attached to
    /// the request context, in the order of registration. Where no scope is
    /// attached there is none.
    ///
    /// The attached scope, if there is one, has to answer its queries.
    pub fn from_context(context: &Extensions, asked: &Asked<T>) -> (injected: Self)
        requires
            resolvable(*context),
        ensures
            collection_agrees(registrations(*context, asked.mutable()), injected.0@),
    {
        let found = match attached_scope(context) {
            Some(scope) => Some(get_all_mut(scope, asked)),
            None => None,
        };
        Self::of_found(found)
    }
}

} // verus!
