use user_accounts::contracts::UserActivatedV1;
use user_accounts::errors::{ApplicationError, DomainError, InfraError, InfraErrorKind};
use user_accounts::events::DomainEvent;
use user_accounts::pg::{PgUserRepo, UserRow, from_domain, to_domain};
use user_accounts::publisher::KafkaPublisher;
use user_accounts::service::FooClient;
use user_accounts::telemetry::{counter, requests_counter, usecase_span};
use user_accounts::types::{User, UserId};
use user_accounts::usecases::activate_user_core;
use user_accounts::{build_http, build_kafka, build_lambda};

#[test]
fn activate_user_core_not_found() {
    let r = activate_user_core(None, 42);
    assert!(matches!(r, Err(ApplicationError::NotFound)));
}

#[test]
fn activate_user_core_activates() {
    let u = User::new(UserId(9));
    assert!(!u.active);
    let (user, evt) = activate_user_core(Some(u), 42).unwrap();
    assert!(user.active);
    assert_eq!(user.id, UserId(9));
    let DomainEvent::UserActivated { user_id, at } = evt;
    assert_eq!(user_id, UserId(9));
    assert_eq!(at, 42);
}

#[test]
fn domain_error_messages() {
    assert_eq!(DomainError::NotFound.message(), "not found");
    assert_eq!(DomainError::InvalidState("bad").message(), "invalid state: bad");
}

#[test]
fn application_error_messages() {
    assert_eq!(ApplicationError::NotFound.message(), "not found");
    assert_eq!(ApplicationError::Infra("down".to_string()).message(), "infra error: down");
}

#[test]
fn infra_error_new_and_text() {
    let e = InfraError::new(InfraErrorKind::Conflict, "row exists".to_string());
    assert!(matches!(e.kind, InfraErrorKind::Conflict));
    assert_eq!(e.message, "row exists");
    assert_eq!(e.message_text(), "Conflict: row exists");
}

#[test]
fn application_error_from_infra() {
    let e = InfraError::new(InfraErrorKind::Unavailable, "db down".to_string());
    let a = ApplicationError::from_infra(e);
    match a {
        ApplicationError::Infra(m) => assert_eq!(m, "Unavailable: db down"),
        other => panic!("expected Infra, got {:?}", other),
    }
}

#[test]
fn pg_row_mappings() {
    let row = UserRow { id: 5, active: true };
    let u = to_domain(row);
    assert_eq!(u.id, UserId(5));
    assert!(u.active);
    let back = from_domain(&u);
    assert_eq!(back.id, 5);
    assert!(back.active);
    let _repo = PgUserRepo;
}

#[test]
fn user_id_from_u64() {
    assert_eq!(UserId::from(3), UserId(3));
}

#[test]
fn stubs_succeed() {
    assert!(KafkaPublisher::new().publish().is_ok());
    assert!(FooClient::new().call().is_ok());
    build_http();
    build_kafka();
    build_lambda();
    let _span = usecase_span("add_user");
    let c = counter("http.requests.total");
    c.inc_by(1);
    requests_counter();
    let evt = UserActivatedV1 { id: 1, at_epoch_ms: 2 };
    assert_eq!(evt.id, 1);
    assert_eq!(evt.at_epoch_ms, 2);
}
