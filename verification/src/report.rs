//! Diagnostics for services that a required extraction did not find.

use crate::identity::{identity_text, key_name, keyed_identity, service_name, unkeyed_identity};
use di::Type;
use vstd::prelude::*;
use vstd::string::StringExecFns;

verus! {

/// The diagnostic for a missing service whose type is called `name`.
pub open spec fn unregistered_type_text(name: Seq<char>) -> Seq<char> {
    "No service for type '"@ + name + "' has been registered."@
}

/// The diagnostic for a missing service whose type is called `name` and
/// whose key type is called `key`.
pub open spec fn unregistered_type_with_key_text(name: Seq<char>, key: Seq<char>) -> Seq<char> {
    "No service for type '"@ + name + "' with the key '"@ + key + "' has been registered."@
}

/// The diagnostic for a missing service of the given identity.
pub open spec fn unregistered_text(identity: Type) -> Seq<char> {
    match key_name(identity) {
        Some(key) => unregistered_type_with_key_text(service_name(identity), key),
        None => unregistered_type_text(service_name(identity)),
    }
}

/// Formats the diagnostic for a missing service from the name of its type.
pub fn unregistered_type_message(name: &str) -> (message: String)
    ensures
        message@ == unregistered_type_text(name@),
{
    let mut message = String::from_str("No service for type '");
    message.append(name);
    message.append("' has been registered.");
    message
}

/// Formats the diagnostic for a missing keyed service from the names of its
/// type and of its key.
pub fn unregistered_type_with_key_message(name: &str, key: &str) -> (message: String)
    ensures
        message@ == unregistered_type_with_key_text(name@, key@),
{
    let mut message = String::from_str("No service for type '");
    message.append(name);
    message.append("' with the key '");
    message.append(key);
    message.append("' has been registered.");
    message
}

/// Formats the diagnostic for a missing service of the given identity: the
/// keyed form where the identity has a key, the plain form where it has none.
pub fn unregistered(identity: &Type) -> (message: String)
    ensures
        message@ == unregistered_text(*identity),
{
    let (name, key) = identity_text(identity);
    match key {
        Some(key) => unregistered_type_with_key_message(name, key),
        None => unregistered_type_message(name),
    }
}

/// The diagnostic for a missing service of type `T`.
pub fn unregistered_type<T: ?Sized>() -> (message: String)
    ensures
        exists|name: Seq<char>| message@ == unregistered_type_text(name),
{
    let identity = unkeyed_identity::<T>();
    unregistered(&identity)
}

/// The diagnostic for a missing service of type `TSvc` registered under the
/// key `TKey`.
pub fn unregistered_type_with_key<TKey, TSvc: ?Sized>() -> (message: String)
    ensures
        exists|name: Seq<char>, key: Seq<char>|
            message@ == unregistered_type_with_key_text(name, key),
{
    let identity = keyed_identity::<TKey, TSvc>();
    unregistered(&identity)
}

/// Whether `part` occurs in `text` as a run of consecutive characters.
pub open spec fn occurs_in(part: Seq<char>, text: Seq<char>) -> bool {
    exists|from: int, to: int|
        0 <= from <= to <= text.len() && #[trigger] text.subrange(from, to) == part
}

/// The diagnostic for a missing service contains the name of its type.
pub proof fn lemma_unregistered_type_names_type(name: Seq<char>)
    ensures
        occurs_in(name, unregistered_type_text(name)),
{
    let head = "No service for type '"@;
    let text = unregistered_type_text(name);
    assert(text.subrange(head.len() as int, (head.len() + name.len()) as int) =~= name);
}

/// The diagnostic for a missing keyed service contains the name of its type
/// and the name of its key.
pub proof fn lemma_unregistered_type_with_key_names_both(name: Seq<char>, key: Seq<char>)
    ensures
        occurs_in(name, unregistered_type_with_key_text(name, key)),
        occurs_in(key, unregistered_type_with_key_text(name, key)),
{
    let head = "No service for type '"@;
    let middle = "' with the key '"@;
    let text = unregistered_type_with_key_text(name, key);
    let key_from = head.len() + name.len() + middle.len();
    assert(text.subrange(head.len() as int, (head.len() + name.len()) as int) =~= name);
    assert(text.subrange(key_from as int, (key_from + key.len()) as int) =~= key);
}

/// The diagnostic for a missing service of any identity contains the name of
/// its service type and, where the identity has a key, the name of the key.
pub proof fn lemma_unregistered_names_identity(identity: Type)
    ensures
        occurs_in(service_name(identity), unregistered_text(identity)),
        key_name(identity) matches Some(key) ==> occurs_in(key, unregistered_text(identity)),
{
    match key_name(identity) {
        Some(key) => lemma_unregistered_type_with_key_names_both(service_name(identity), key),
        None => lemma_unregistered_type_names_type(service_name(identity)),
    }
}

} // verus!
