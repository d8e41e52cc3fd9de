use axum::http::{Extensions, StatusCode};
use di::{Mut, Ref, RefMut, ServiceCollection, ServiceProvider, Type};
use di_axum::context::attach_scope;
use di_axum::identity::Asked;
use di_axum::inject::{Inject, InjectAll, InjectAllMut, InjectMut, TryInject, TryInjectMut};
use di_axum::rejection::{reject, require};

trait Service: Send + Sync {
    fn do_work(&self) -> String;
}

struct ServiceImpl;

impl Service for ServiceImpl {
    fn do_work(&self) -> String {
        "Test".into()
    }
}

struct Unregistered;

impl Unregistered {
    fn do_work(&self) -> String {
        "Test".into()
    }
}

trait Thing: Send + Sync {
    fn name(&self) -> &'static str;
}

struct Thing1;

struct Thing2;

struct Thing3;

impl Thing for Thing1 {
    fn name(&self) -> &'static str {
        "one"
    }
}

impl Thing for Thing2 {
    fn name(&self) -> &'static str {
        "two"
    }
}

impl Thing for Thing3 {
    fn name(&self) -> &'static str {
        "three"
    }
}

struct Number(usize);

fn request(provider: &ServiceProvider) -> Extensions {
    let mut context = Extensions::new();
    attach_scope(&mut context, provider);
    context
}

fn service_provider() -> ServiceProvider {
    ServiceCollection::new()
        .add(di::scoped::<dyn Service, ServiceImpl>().from(|_| Ref::new(ServiceImpl)))
        .build_provider()
        .unwrap()
}

fn things_provider() -> ServiceProvider {
    ServiceCollection::new()
        .try_add_to_all(di::scoped::<dyn Thing, Thing1>().from(|_| Ref::new(Thing1)))
        .try_add_to_all(di::scoped::<dyn Thing, Thing2>().from(|_| Ref::new(Thing2)))
        .try_add_to_all(di::scoped::<dyn Thing, Thing3>().from(|_| Ref::new(Thing3)))
        .build_provider()
        .unwrap()
}

fn numbers_provider() -> ServiceProvider {
    ServiceCollection::new()
        .add(di::scoped::<Mut<Number>, Mut<Number>>().from(|_| Ref::new(Mut::new(Number(1)))))
        .add(di::scoped::<Mut<Number>, Mut<Number>>().from(|_| Ref::new(Mut::new(Number(2)))))
        .build_provider()
        .unwrap()
}

#[test]
fn request_should_fail_with_500_for_unregistered_service() {
    let context = request(&ServiceProvider::default());
    let asked = Asked::<Unregistered>::of();

    let outcome = Inject::from_context(&context, &asked);

    let (status, _) = outcome.map(|Inject(service)| service.do_work()).unwrap_err();
    assert_eq!(status, StatusCode::INTERNAL_SERVER_ERROR);
}

#[test]
fn try_inject_into_handler() {
    let context = request(&ServiceProvider::default());
    let asked = Asked::<Unregistered>::of();

    let TryInject(service) = TryInject::from_context(&context, &asked);

    assert!(service.is_none());
}

#[test]
fn inject_into_handler() {
    let context = request(&service_provider());
    let asked = Asked::<dyn Service>::of();

    let Inject(service) = Inject::from_context(&context, &asked).unwrap();

    assert_eq!(&service.do_work(), "Test");
}

#[test]
fn inject_with_state_into_handler() {
    let state = ();
    let context = request(&service_provider());
    let asked = Asked::<dyn Service>::of();

    let Inject(service) = Inject::from_context(&context, &asked).unwrap();

    assert_eq!(state, ());
    assert_eq!(&service.do_work(), "Test");
}

#[test]
fn inject_all_into_handler() {
    let context = request(&things_provider());
    let asked = Asked::<dyn Thing>::of();

    let InjectAll(things) = InjectAll::from_context(&context, &asked);

    assert_eq!(&things.len().to_string(), "3");
}

#[test]
fn inject_all_keeps_registration_order() {
    let context = request(&things_provider());
    let asked = Asked::<dyn Thing>::of();

    let InjectAll(things) = InjectAll::from_context(&context, &asked);

    let names: Vec<&str> = things.iter().map(|thing| thing.name()).collect();
    assert_eq!(names, vec!["one", "two", "three"]);
}

#[test]
fn unregistered_rejection_names_the_type() {
    let context = request(&ServiceProvider::default());
    let asked = Asked::<dyn Service>::of();

    let (status, message) = Inject::from_context(&context, &asked).err().unwrap();

    assert_eq!(status.as_u16(), 500);
    assert!(message.contains("Service"));
    assert_eq!(
        message,
        format!(
            "No service for type '{}' has been registered.",
            Type::of::<dyn Service>().name()
        )
    );
}

#[test]
fn unregistered_mutable_rejection_names_the_type() {
    let context = request(&ServiceProvider::default());
    let asked = Asked::<Number>::of();

    let (status, message) = InjectMut::from_context(&context, &asked).err().unwrap();

    assert_eq!(status, StatusCode::INTERNAL_SERVER_ERROR);
    assert_eq!(
        message,
        format!(
            "No service for type '{}' has been registered.",
            Type::of::<Number>().name()
        )
    );
}

#[test]
fn zero_registrations_are_absent_or_empty() {
    let context = request(&service_provider());
    let asked = Asked::<Unregistered>::of();

    assert!(TryInject::from_context(&context, &asked).0.is_none());
    assert!(TryInjectMut::from_context(&context, &asked).0.is_none());
    assert_eq!(InjectAll::from_context(&context, &asked).0.len(), 0);
    assert_eq!(InjectAllMut::from_context(&context, &asked).0.len(), 0);
    assert!(Inject::from_context(&context, &asked).is_err());
    assert!(InjectMut::from_context(&context, &asked).is_err());
}

#[test]
fn missing_scope_behaves_as_zero_registrations() {
    let context = Extensions::new();
    let service = Asked::<dyn Service>::of();
    let thing = Asked::<dyn Thing>::of();
    let number = Asked::<Number>::of();

    assert!(TryInject::from_context(&context, &service).0.is_none());
    assert!(TryInjectMut::from_context(&context, &number).0.is_none());
    assert_eq!(InjectAll::from_context(&context, &thing).0.len(), 0);
    assert_eq!(InjectAllMut::from_context(&context, &number).0.len(), 0);
    let (status, message) = Inject::from_context(&context, &service).err().unwrap();
    assert_eq!(status, StatusCode::INTERNAL_SERVER_ERROR);
    assert!(message.contains("Service"));
    let (status, message) = InjectMut::from_context(&context, &number).err().unwrap();
    assert_eq!(status, StatusCode::INTERNAL_SERVER_ERROR);
    assert!(message.contains("Number"));
}

#[test]
fn missing_scope_and_missing_registration_fail_alike() {
    let without_scope = Extensions::new();
    let with_scope = request(&ServiceProvider::default());
    let asked = Asked::<dyn Service>::of();

    let first = Inject::from_context(&without_scope, &asked).err().unwrap();
    let second = Inject::from_context(&with_scope, &asked).err().unwrap();

    assert_eq!(first, second);
}

#[test]
fn one_registration_resolves_to_the_same_instance() {
    let context = request(&service_provider());
    let asked = Asked::<dyn Service>::of();

    let Inject(required) = Inject::from_context(&context, &asked).unwrap();
    let TryInject(optional) = TryInject::from_context(&context, &asked);
    let InjectAll(all) = InjectAll::from_context(&context, &asked);

    assert!(Ref::ptr_eq(&required, &optional.unwrap()));
    assert_eq!(all.len(), 1);
    assert!(Ref::ptr_eq(&required, &all[0]));
}

#[test]
fn mutable_forms_resolve_mutable_services() {
    let context = request(&numbers_provider());
    let asked = Asked::<Number>::of();

    let InjectMut(required) = InjectMut::from_context(&context, &asked).unwrap();
    let TryInjectMut(optional) = TryInjectMut::from_context(&context, &asked);
    let InjectAllMut(all) = InjectAllMut::from_context(&context, &asked);

    assert_eq!(required.read().unwrap().0, 2);
    assert!(Ref::ptr_eq(&required, &optional.unwrap()));
    let values: Vec<usize> = all.iter().map(|number| number.read().unwrap().0).collect();
    assert_eq!(values, vec![1, 2]);
}

#[test]
fn mutable_and_shared_registrations_are_distinct() {
    let context = request(&numbers_provider());
    let asked = Asked::<Number>::of();

    assert!(TryInject::from_context(&context, &asked).0.is_none());
    assert!(Inject::from_context(&context, &asked).is_err());
    assert_eq!(InjectAll::from_context(&context, &asked).0.len(), 0);
}

#[test]
fn written_value_is_visible_to_later_reads() {
    let context = request(&numbers_provider());
    let asked = Asked::<Number>::of();

    let InjectMut(writer) = InjectMut::from_context(&context, &asked).unwrap();
    writer.write().unwrap().0 = 40;
    let InjectMut(reader) = InjectMut::from_context(&context, &asked).unwrap();
    let TryInjectMut(other) = TryInjectMut::from_context(&context, &asked);

    assert_eq!(reader.read().unwrap().0, 40);
    assert_eq!(other.unwrap().read().unwrap().0, 40);
}

#[test]
fn require_keeps_the_service_that_was_found() {
    let found: Ref<usize> = Ref::new(5);

    let outcome = require(Some(found.clone()), &Type::of::<usize>());

    assert!(Ref::ptr_eq(&outcome.unwrap(), &found));
}

#[test]
fn require_rejects_a_missing_service() {
    let found: Option<RefMut<usize>> = None;

    let (status, message) = require(found, &Type::of::<usize>()).err().unwrap();

    assert_eq!(status, StatusCode::INTERNAL_SERVER_ERROR);
    assert_eq!(message, "No service for type 'usize' has been registered.");
}

#[test]
fn reject_reports_a_server_fault() {
    let (status, message) = reject(&Type::keyed::<u8, usize>());

    assert_eq!(status.as_u16(), 500);
    assert_eq!(
        message,
        "No service for type 'usize' with the key 'u8' has been registered."
    );
}
