//! References to services that are registered under a key.

use di::{Mut, Ref};
use std::marker::PhantomData;
use vstd::prelude::*;

verus! {

/// `Arc::clone`: another pointer to the same allocation, so to the same
/// value.
#[verifier::external_body]
fn share<T: ?Sized>(service: &Ref<T>) -> (copy: Ref<T>)
    ensures
        copy == *service,
{
    Ref::clone(service)
}

/// A reference to a service that is registered under a key: the service,
/// and the key type as a marker.
#[derive(Debug)]
pub struct Keyed<TKey, TSvc: ?Sized> {
    pub service: Ref<TSvc>,
    pub key: PhantomData<TKey>,
}

/// A reference to a mutable service that is registered under a key.
pub type KeyedMut<TKey, TSvc> = Keyed<TKey, Mut<TSvc>>;

impl<TKey, TSvc: ?Sized> Keyed<TKey, TSvc> {
    /// Marks a service reference with the key it is registered under.
    pub fn new(service: Ref<TSvc>) -> (keyed: Self)
        ensures
            keyed.service == service,
    {
        Keyed { service, key: PhantomData }
    }
}

impl<TKey, TSvc: ?Sized> Clone for Keyed<TKey, TSvc> {
    /// Another reference to the same service, under the same key.
    fn clone(&self) -> (copy: Self)
        ensures
            copy == *self,
    {
        Keyed { service: share(&self.service), key: PhantomData }
    }
}

} // verus!
