use di::{Mut, Type};
use di_axum::identity::{Asked, AskedWithKey};

struct Basic;

trait Service: Send + Sync {}

#[test]
fn asked_names_the_identity_of_the_type() {
    let asked = Asked::<dyn Service>::of();

    let (name, key) = Type::deconstruct(asked.named());

    assert_eq!(name, Type::of::<dyn Service>().name());
    assert_eq!(key, None);
    assert!(*asked.named() == Type::of::<dyn Service>());
}

#[test]
fn asked_with_key_names_the_type_and_the_key() {
    let asked = AskedWithKey::<Basic, u8>::of();

    let (name, key) = Type::deconstruct(asked.named());

    assert_eq!(name, "u8");
    assert_eq!(key, Some(Type::of::<Basic>().name()));
    assert!(*asked.named() == Type::keyed::<Basic, u8>());
}

#[test]
fn keyed_and_unkeyed_identities_differ() {
    let unkeyed = Asked::<u8>::of();
    let keyed = AskedWithKey::<Basic, u8>::of();

    assert!(*unkeyed.named() != *keyed.named());
    assert_eq!(unkeyed.named().name(), keyed.named().name());
}

#[test]
fn asked_holds_the_identity_of_the_mutable_type() {
    let asked = Asked::<dyn Service>::of();

    let (name, key) = Type::deconstruct(asked.mutable_identity());

    assert_eq!(name, Type::of::<Mut<dyn Service>>().name());
    assert_eq!(key, None);
    assert!(*asked.mutable_identity() == Type::of::<Mut<dyn Service>>());
    assert!(*asked.mutable_identity() != *asked.named());
}

#[test]
fn asked_with_key_holds_the_identity_of_the_mutable_type() {
    let asked = AskedWithKey::<Basic, u8>::of();

    let (name, key) = Type::deconstruct(asked.mutable_identity());

    assert_eq!(name, Type::of::<Mut<u8>>().name());
    assert_eq!(key, Some(Type::of::<Basic>().name()));
    assert!(*asked.mutable_identity() == Type::keyed::<Basic, Mut<u8>>());
    assert!(*asked.mutable_identity() != *asked.named());
}
