//! The failure of a required extraction: a status and a diagnostic.

use crate::identity::{key_name, service_name};
use crate::report::{
    lemma_unregistered_names_identity, occurs_in, unregistered, unregistered_text,
};
use axum::http::StatusCode;
use di::Type;
use vstd::prelude::*;

verus! {

#[verifier::external_type_specification]
#[verifier::external_body]
pub struct ExStatusCode(StatusCode);

/// The number of a status code: what `http::StatusCode::as_u16` returns.
pub uninterp spec fn status_number(status: StatusCode) -> u16;

/// What a failed extraction hands to the framework.
pub type Rejection = (StatusCode, String);

/// `http::StatusCode::INTERNAL_SERVER_ERROR`: the status with the number 500.
#[verifier::external_body]
fn internal_server_error() -> (status: StatusCode)
    ensures
        status_number(status) == 500,
{
    StatusCode::INTERNAL_SERVER_ERROR
}

/// Whether the rejection reports, as a server fault, that no service of the
/// given identity is registered.
pub open spec fn is_unregistered(rejection: Rejection, identity: Type) -> bool {
    &&& status_number(rejection.0) == 500
    &&& rejection.1@ == unregistered_text(identity)
}

/// Whether `outcome` is what a required extraction makes of the container's
/// answer `found`: the service it found, or else a rejection that names the
/// identity that was asked for.
pub open spec fn is_required<R>(
    found: Option<R>,
    identity: Type,
    outcome: Result<R, Rejection>,
) -> bool {
    match found {
        Some(service) => outcome == Ok::<R, Rejection>(service),
        None => outcome is Err && is_unregistered(outcome->Err_0, identity),
    }
}

/// The rejection for a missing service of the given identity.
pub fn reject(identity: &Type) -> (rejection: Rejection)
    ensures
        is_unregistered(rejection, *identity),
{
    (internal_server_error(), unregistered(identity))
}

/// Turns the container's answer to a query for one service into the outcome
/// of a required extraction: the service where one was found, a rejection
/// where none was.
pub fn require<R>(found: Option<R>, identity: &Type) -> (outcome: Result<R, Rejection>)
    ensures
        is_required(found, *identity, outcome),
{
    match found {
        Some(service) => Ok(service),
        None => Err(reject(identity)),
    }
}

/// A rejection for a missing service is a server fault, and its diagnostic
/// contains the name of the service type and, for a keyed service, the name
/// of the key.
pub proof fn lemma_rejection_names_identity(rejection: Rejection, identity: Type)
    requires
        is_unregistered(rejection, identity),
    ensures
        status_number(rejection.0) == 500,
        occurs_in(service_name(identity), rejection.1@),
        key_name(identity) matches Some(key) ==> occurs_in(key, rejection.1@),
{
    lemma_unregistered_names_identity(identity);
}

} // verus!
