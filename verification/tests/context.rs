use axum::http::Extensions;
use di::{Ref, ServiceCollection, ServiceProvider};
use di_axum::context::{attach_scope, attached_scope};

struct Marker;

fn provider_with_scoped_marker() -> ServiceProvider {
    ServiceCollection::new()
        .add(di::scoped::<Marker, Marker>().from(|_| Ref::new(Marker)))
        .build_provider()
        .unwrap()
}

#[test]
fn new_context_has_no_scope() {
    let context = Extensions::new();
    assert!(attached_scope(&context).is_none());
}

#[test]
fn attach_scope_attaches_one_scope() {
    let mut context = Extensions::new();
    attach_scope(&mut context, &ServiceProvider::default());
    assert!(attached_scope(&context).is_some());
    assert_eq!(context.len(), 1);
}

#[test]
fn attach_scope_twice_keeps_a_single_entry() {
    let root = provider_with_scoped_marker();
    let mut context = Extensions::new();
    attach_scope(&mut context, &root);
    let first = attached_scope(&context).unwrap().get_required::<Marker>();
    attach_scope(&mut context, &root);
    let second = attached_scope(&context).unwrap().get_required::<Marker>();
    assert_eq!(context.len(), 1);
    assert!(!Ref::ptr_eq(&first, &second));
}

#[test]
fn attach_scope_leaves_other_entries_alone() {
    let mut context = Extensions::new();
    context.insert(7u8);
    attach_scope(&mut context, &ServiceProvider::default());
    assert_eq!(context.get::<u8>(), Some(&7u8));
    assert_eq!(context.len(), 2);
}

#[test]
fn attached_scope_is_a_new_scope_of_the_root() {
    let root = provider_with_scoped_marker();
    let in_root = root.get_required::<Marker>();
    let mut context = Extensions::new();
    attach_scope(&mut context, &root);
    let scope = attached_scope(&context).unwrap();
    let in_scope = scope.get_required::<Marker>();
    assert!(!Ref::ptr_eq(&in_root, &in_scope));
    assert!(Ref::ptr_eq(&in_scope, &scope.get_required::<Marker>()));
}

#[test]
fn attached_scope_reads_the_entry_that_was_inserted() {
    let root = provider_with_scoped_marker();
    let scope = root.create_scope();
    let expected = scope.get_required::<Marker>();
    let mut context = Extensions::new();
    context.insert(scope);
    let found = attached_scope(&context).unwrap().get_required::<Marker>();
    assert!(Ref::ptr_eq(&expected, &found));
}
