//! The request context and the resolution scope attached to it.
//!
//! A request is in one of two states: no scope attached yet, or a scope
//! attached. `attach_scope` moves it from the first to the second, and
//! `attached_scope` reads which one it is in. A context without a scope
//! counts as one whose scope has no registrations at all.

use crate::facade::{answers, create_scope, registered};
use axum::http::Extensions;
use di::{ServiceProvider, Type};
use vstd::prelude::*;

verus! {

#[verifier::external_type_specification]
#[verifier::external_body]
pub struct ExExtensions(Extensions);

/// The resolution scope that a request context holds: what
/// `http::Extensions::get` finds under the type `ServiceProvider`.
pub uninterp spec fn scope_entry(context: Extensions) -> Option<ServiceProvider>;

/// `http::Extensions::insert` for a `ServiceProvider`: stores the scope as
/// the context's entry of that type and hands back the entry it replaced.
#[verifier::external_body]
fn put_scope(context: &mut Extensions, scope: ServiceProvider) -> (replaced: Option<
    ServiceProvider,
>)
    ensures
        scope_entry(*final(context)) == Some(scope),
        replaced == scope_entry(*old(context)),
{
    context.insert(scope)
}

/// `http::Extensions::get` for a `ServiceProvider`: the context's entry of
/// that type, if it has one.
#[verifier::external_body]
fn get_scope(context: &Extensions) -> (scope: Option<&ServiceProvider>)
    ensures
        match scope {
            Some(found) => scope_entry(*context) == Some(*found),
            None => scope_entry(*context) is None,
        },
{
    context.get::<ServiceProvider>()
}

/// Whether a scope is attached to the context.
pub open spec fn has_scope(context: Extensions) -> bool {
    scope_entry(context) is Some
}

/// Whether every query that a request makes returns: the attached scope, if
/// there is one, answers.
pub open spec fn resolvable(context: Extensions) -> bool {
    scope_entry(context) matches Some(scope) ==> answers(scope)
}

/// The number of services that a request can resolve under an identity:
/// those of the attached scope, and none where no scope is attached.
pub open spec fn registrations(context: Extensions, identity: Type) -> nat {
    match scope_entry(context) {
        Some(scope) => registered(scope, identity),
        None => 0,
    }
}

/// The scope attached to the request context, if any.
pub fn attached_scope(context: &Extensions) -> (scope: Option<&ServiceProvider>)
    ensures
        match scope {
            Some(found) => scope_entry(*context) == Some(*found),
            None => scope_entry(*context) is None,
        },
{
    get_scope(context)
}

/// Creates one new resolution scope from the root container and attaches it
/// to the request context, in place of any scope attached before. The
/// request can then resolve what the root container has registered. The
/// root container has to answer its queries, and the new scope then does.
pub fn attach_scope(context: &mut Extensions, root: &ServiceProvider)
    requires
        answers(*root),
    ensures
        has_scope(*final(context)),
        resolvable(*final(context)),
        forall|identity: Type| #[trigger]
            registrations(*final(context), identity) == registered(*root, identity),
{
    let scope = create_scope(root);
    let _ = put_scope(context, scope);
}

} // verus!
