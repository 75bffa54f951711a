use rendezvous::auth::token_permits;
use rendezvous::handler::{ReceiverError, SenderError};

#[test]
fn sender_error_reasons() {
    assert_eq!(SenderError::Existed.reason(), "existed");
    assert_eq!(SenderError::NotExists.reason(), "not exists");
    assert_eq!(SenderError::Destroyed.reason(), "destroyed");
    assert_eq!(SenderError::NoReceiver.reason(), "no receiver");
    assert_eq!(SenderError::SourceExhausted.reason(), "source exhausted");
}

#[test]
fn receiver_error_reasons() {
    assert_eq!(ReceiverError::Active.reason(), "active");
    assert_eq!(ReceiverError::NotFound.reason(), "not found");
    assert_eq!(ReceiverError::Destroyed.reason(), "destroyed");
    assert_eq!(ReceiverError::NoCandidate.reason(), "no candidate");
    assert_eq!(ReceiverError::NotAvailable.reason(), "not available");
    assert_eq!(ReceiverError::NotActive.reason(), "not active");
    assert_eq!(ReceiverError::NotExists.reason(), "not exists");
}

#[test]
fn open_gate_permits_everything() {
    assert!(token_permits(&None, &None));
    assert!(token_permits(&None, &Some("anything".to_string())));
}

#[test]
fn configured_gate_requires_exact_token() {
    let required = Some("token123".to_string());
    assert!(token_permits(&required, &Some("token123".to_string())));
    assert!(!token_permits(&required, &Some("wrong".to_string())));
    assert!(!token_permits(&required, &None));
}
