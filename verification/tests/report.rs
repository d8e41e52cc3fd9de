use di::Type;
use di_axum::{
    unregistered, unregistered_type, unregistered_type_message, unregistered_type_with_key,
    unregistered_type_with_key_message,
};

struct Basic;

trait Greeter: Send + Sync {}

#[test]
fn message_names_the_type() {
    assert_eq!(
        unregistered_type_message("Test"),
        "No service for type 'Test' has been registered."
    );
}

#[test]
fn message_for_an_empty_name_keeps_the_template() {
    assert_eq!(
        unregistered_type_message(""),
        "No service for type '' has been registered."
    );
}

#[test]
fn keyed_message_names_the_type_and_the_key() {
    assert_eq!(
        unregistered_type_with_key_message("Test", "Basic"),
        "No service for type 'Test' with the key 'Basic' has been registered."
    );
}

#[test]
fn message_for_a_type_parameter_names_it() {
    assert_eq!(
        unregistered_type::<u8>(),
        "No service for type 'u8' has been registered."
    );
}

#[test]
fn message_for_a_trait_object_names_the_trait() {
    let message = unregistered_type::<dyn Greeter>();
    assert!(message.starts_with("No service for type 'dyn "));
    assert!(message.contains("Greeter"));
    assert!(message.ends_with("' has been registered."));
}

#[test]
fn keyed_message_for_type_parameters_names_both() {
    let message = unregistered_type_with_key::<Basic, u8>();
    assert!(message.starts_with("No service for type 'u8' with the key '"));
    assert!(message.contains("Basic"));
    assert!(message.ends_with("' has been registered."));
}

#[test]
fn message_for_an_unkeyed_identity_is_the_plain_form() {
    let identity = Type::of::<u16>();
    assert_eq!(
        unregistered(&identity),
        "No service for type 'u16' has been registered."
    );
}

#[test]
fn message_for_a_keyed_identity_is_the_keyed_form() {
    let identity = Type::keyed::<u32, u16>();
    assert_eq!(
        unregistered(&identity),
        "No service for type 'u16' with the key 'u32' has been registered."
    );
}

#[test]
fn messages_are_deterministic() {
    assert_eq!(unregistered_type::<u64>(), unregistered_type::<u64>());
    assert_eq!(
        unregistered_type_with_key::<Basic, u64>(),
        unregistered_type_with_key::<Basic, u64>()
    );
}
