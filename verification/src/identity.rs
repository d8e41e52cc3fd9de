//! Type identities: the name of a service type and, for a keyed service, the
//! name of its key type. The container keys its registrations by them.

use di::{Mut, Type};
use std::marker::PhantomData;
use vstd::prelude::*;

verus! {

#[verifier::external_type_specification]
#[verifier::external_body]
pub struct ExType(Type);

/// What `di::Type::deconstruct` returns for an identity: the name of the
/// service type, and the name of the key type where there is one.
pub uninterp spec fn identity_parts(identity: Type) -> (Seq<char>, Option<Seq<char>>);

/// The name of the service type of an identity.
pub open spec fn service_name(identity: Type) -> Seq<char> {
    identity_parts(identity).0
}

/// The name of the key type of an identity; `None` for an unkeyed one.
pub open spec fn key_name(identity: Type) -> Option<Seq<char>> {
    identity_parts(identity).1
}

/// `di::Type::of`: the identity of the service type `T` registered without a
/// key. The source builds it with no key component.
#[verifier::external_body]
pub(crate) fn unkeyed_identity<T: ?Sized>() -> (identity: Type)
    ensures
        identity_parts(identity).1 is None,
{
    Type::of::<T>()
}

/// `di::Type::keyed`: the identity of the service type `TSvc` registered
/// under the key `TKey`. The source builds it with a key component.
#[verifier::external_body]
pub(crate) fn keyed_identity<TKey, TSvc: ?Sized>() -> (identity: Type)
    ensures
        identity_parts(identity).1 is Some,
{
    Type::keyed::<TKey, TSvc>()
}

/// `di::Type::deconstruct`: the two components of an identity as text.
#[verifier::external_body]
pub(crate) fn identity_text(identity: &Type) -> (parts: (&str, Option<&str>))
    ensures
        parts.0@ == identity_parts(*identity).0,
        match parts.1 {
            Some(key) => identity_parts(*identity).1 == Some(key@),
            None => identity_parts(*identity).1 is None,
        },
{
    Type::deconstruct(identity)
}

/// The identities under which the container is asked for a service of type
/// `T` that is registered without a key: one for shared references to it,
/// one for mutable ones. A value is made by `of` alone, so it always holds
/// the identities of `T`.
#[derive(Debug)]
pub struct Asked<T: ?Sized> {
    shared: Type,
    mutable: Type,
    service: PhantomData<T>,
}

impl<T: ?Sized> Asked<T> {
    #[verifier::type_invariant]
    spec fn unkeyed(self) -> bool {
        key_name(self.shared) is None && key_name(self.mutable) is None
    }

    /// The identity under which shared references to `T` are registered. It
    /// is also the identity that diagnostics name.
    pub closed spec fn shared(&self) -> Type {
        self.shared
    }

    /// The identity under which mutable references to `T` are registered.
    pub closed spec fn mutable(&self) -> Type {
        self.mutable
    }

    /// The identities of `T`. Neither has a key.
    pub fn of() -> (asked: Self)
        ensures
            key_name(asked.shared()) is None,
            key_name(asked.mutable()) is None,
    {
        Asked {
            shared: unkeyed_identity::<T>(),
            mutable: unkeyed_identity::<Mut<T>>(),
            service: PhantomData,
        }
    }

    /// The identity that diagnostics name. It has no key.
    pub fn named(&self) -> (identity: &Type)
        ensures
            *identity == self.shared(),
            key_name(*identity) is None,
    {
        proof {
            use_type_invariant(self);
        }
        &self.shared
    }

    /// The identity under which mutable references to `T` are registered.
    /// It has no key.
    pub fn mutable_identity(&self) -> (identity: &Type)
        ensures
            *identity == self.mutable(),
            key_name(*identity) is None,
    {
        proof {
            use_type_invariant(self);
        }
        &self.mutable
    }
}

/// The identities under which the container is asked for a service of type
/// `TSvc` that is registered under the key `TKey`: one for shared references
/// to it, one for mutable ones. A value is made by `of` alone, so it always
/// holds the identities of `TSvc` under `TKey`.
#[derive(Debug)]
pub struct AskedWithKey<TKey, TSvc: ?Sized> {
    shared: Type,
    mutable: Type,
    key: PhantomData<TKey>,
    service: PhantomData<TSvc>,
}

impl<TKey, TSvc: ?Sized> AskedWithKey<TKey, TSvc> {
    #[verifier::type_invariant]
    spec fn keyed(self) -> bool {
        key_name(self.shared) is Some && key_name(self.mutable) is Some
    }

    /// The identity under which shared references to `TSvc` are registered
    /// with the key `TKey`. It is also the identity that diagnostics name.
    pub closed spec fn shared(&self) -> Type {
        self.shared
    }

    /// The identity under which mutable references to `TSvc` are registered
    /// with the key `TKey`.
    pub closed spec fn mutable(&self) -> Type {
        self.mutable
    }

    /// The identities of `TSvc` under the key `TKey`. Both have a key.
    pub fn of() -> (asked: Self)
        ensures
            key_name(asked.shared()) is Some,
            key_name(asked.mutable()) is Some,
    {
        AskedWithKey {
            shared: keyed_identity::<TKey, TSvc>(),
            mutable: keyed_identity::<TKey, Mut<TSvc>>(),
            key: PhantomData,
            service: PhantomData,
        }
    }

    /// The identity that diagnostics name. It has a key.
    pub fn named(&self) -> (identity: &Type)
        ensures
            *identity == self.shared(),
            key_name(*identity) is Some,
    {
        proof {
            use_type_invariant(self);
        }
        &self.shared
    }

    /// The identity under which mutable references to `TSvc` are registered
    /// with the key `TKey`. It has a key.
    pub fn mutable_identity(&self) -> (identity: &Type)
        ensures
            *identity == self.mutable(),
            key_name(*identity) is Some,
    {
        proof {
            use_type_invariant(self);
        }
        &self.mutable
    }
}

/// An identity without a key and an identity with a key are never the same,
/// whatever service types they name.
pub proof fn lemma_keyed_differs_from_unkeyed(unkeyed: Type, keyed: Type)
    requires
        key_name(unkeyed) is None,
        key_name(keyed) is Some,
    ensures
        unkeyed != keyed,
        identity_parts(unkeyed) != identity_parts(keyed),
{
}

} // verus!
