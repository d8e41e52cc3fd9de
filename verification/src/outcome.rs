//! How the outcome of an extraction depends on what is registered.
//!
//! Every extractor states its result through one of the three predicates
//! here, over the number of services that the request can resolve under the
//! identity asked for.

use crate::context::{has_scope, registrations};
use crate::identity::{key_name, service_name};
use crate::rejection::{is_unregistered, lemma_rejection_names_identity, status_number, Rejection};
use crate::report::occurs_in;
use axum::http::Extensions;
use di::Type;
use vstd::prelude::*;

verus! {

/// What a query for one service comes to: the container's answer where a
/// scope was there to ask, and nothing where none was.
pub open spec fn answer_or_none<R>(found: Option<Option<R>>) -> Option<R> {
    match found {
        Some(answer) => answer,
        None => None,
    }
}

/// What a query for every service comes to: the services the container
/// yielded, in its order, where a scope was there to ask, and none where
/// none was.
pub open spec fn answer_or_empty<R>(found: Option<Vec<R>>) -> Seq<R> {
    match found {
        Some(all) => all@,
        None => Seq::<R>::empty(),
    }
}

/// An optional extraction holds a service exactly when one is registered.
pub open spec fn optional_agrees<R>(count: nat, found: Option<R>) -> bool {
    found is Some <==> count > 0
}

/// A required extraction succeeds exactly when a service is registered, and
/// otherwise fails with a rejection that names the identity asked for.
pub open spec fn required_agrees<R>(
    count: nat,
    named: Type,
    outcome: Result<R, Rejection>,
) -> bool {
    &&& outcome is Ok <==> count > 0
    &&& outcome matches Err(rejection) ==> is_unregistered(rejection, named)
}

/// A collection extraction holds as many services as are registered.
pub open spec fn collection_agrees<R>(count: nat, found: Seq<R>) -> bool {
    found.len() == count
}

/// With nothing registered under the identity asked for, an optional
/// extraction is absent, a collection is empty, and a required extraction
/// fails with a server fault whose diagnostic contains the name of the
/// service type and, for a keyed service, the name of the key.
pub proof fn lemma_nothing_registered<O, R, A>(
    named: Type,
    optional: Option<O>,
    required: Result<R, Rejection>,
    all: Seq<A>,
)
    requires
        optional_agrees(0, optional),
        required_agrees(0, named, required),
        collection_agrees(0, all),
    ensures
        optional is None,
        all.len() == 0,
        required is Err,
        status_number(required->Err_0.0) == 500,
        occurs_in(service_name(named), required->Err_0.1@),
        key_name(named) matches Some(key) ==> occurs_in(key, required->Err_0.1@),
{
    lemma_rejection_names_identity(required->Err_0, named);
}

/// With one service or more registered under the identity asked for, an
/// optional extraction holds a service and a required extraction succeeds.
pub proof fn lemma_something_registered<O, R>(
    count: nat,
    named: Type,
    optional: Option<O>,
    required: Result<R, Rejection>,
)
    requires
        count > 0,
        optional_agrees(count, optional),
        required_agrees(count, named, required),
    ensures
        optional is Some,
        required is Ok,
{
}

/// A collection extraction holds exactly as many services as are registered
/// under the identity asked for, and so none exactly when an optional
/// extraction is absent and a required one fails.
pub proof fn lemma_collection_counts_registrations<O, R, A>(
    count: nat,
    named: Type,
    optional: Option<O>,
    required: Result<R, Rejection>,
    all: Seq<A>,
)
    requires
        optional_agrees(count, optional),
        required_agrees(count, named, required),
        collection_agrees(count, all),
    ensures
        all.len() == count,
        all.len() == 0 <==> optional is None,
        all.len() == 0 <==> required is Err,
{
}

/// A request without a scope resolves nothing, under whatever identity: to
/// every extractor it looks like a scope with no registrations.
pub proof fn lemma_missing_scope_registers_nothing(context: Extensions, identity: Type)
    requires
        !has_scope(context),
    ensures
        registrations(context, identity) == 0,
{
}

/// Registrations under a key and registrations without one never stand in
/// for each other: where a request can resolve services under one identity
/// only, it resolves none under an identity that differs from it in having a
/// key.
pub proof fn lemma_keyed_and_unkeyed_are_apart(context: Extensions, only: Type, asked: Type)
    requires
        key_name(only) is Some <==> key_name(asked) is None,
        forall|other: Type| other != only ==> #[trigger] registrations(context, other) == 0,
    ensures
        registrations(context, asked) == 0,
{
}

} // verus!
