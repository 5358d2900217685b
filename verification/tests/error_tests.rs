use eventfold_es::{ExecuteError, StateError};

/// A minimal domain error for testing `ExecuteError<E>`.
#[derive(Debug)]
struct TestDomainError;

impl std::fmt::Display for TestDomainError {
    fn fmt(&self, f: &mut std::fmt::Formatter<'_>) -> std::fmt::Result {
        f.write_str("test domain error")
    }
}

#[test]
fn execute_error_domain_displays_inner() {
    let err: ExecuteError<TestDomainError> = ExecuteError::Domain(TestDomainError);
    assert_eq!(err.message(), "test domain error");
}

#[test]
fn execute_error_wrong_expected_version_display_message() {
    let err: ExecuteError<TestDomainError> = ExecuteError::WrongExpectedVersion;
    assert_eq!(err.message(), "wrong expected version: retries exhausted");
}

#[test]
fn execute_error_io_from_conversion() {
    let io_err = std::io::Error::new(std::io::ErrorKind::NotFound, "file missing");
    let err: ExecuteError<TestDomainError> = ExecuteError::from(io_err);
    assert!(err.message().contains("file missing"));
}

#[test]
fn execute_error_actor_gone_display() {
    let err: ExecuteError<TestDomainError> = ExecuteError::ActorGone;
    assert_eq!(err.message(), "aggregate actor is no longer running");
}

#[test]
fn state_error_io_from_conversion() {
    let io_err = std::io::Error::new(std::io::ErrorKind::PermissionDenied, "access denied");
    let err: StateError = StateError::from(io_err);
    assert!(err.message().contains("access denied"));
}

#[test]
fn state_error_actor_gone_display() {
    let err = StateError::ActorGone;
    assert_eq!(err.message(), "aggregate actor is no longer running");
}

#[test]
fn execute_error_wrong_expected_version_display() {
    let err: ExecuteError<TestDomainError> = ExecuteError::WrongExpectedVersion;
    let msg = err.message();
    assert!(!msg.is_empty());
}

#[test]
fn execute_error_transport_display() {
    let status = tonic::Status::internal("boom");
    let err: ExecuteError<TestDomainError> = ExecuteError::Transport(status);
    let msg = err.message();
    assert!(msg.contains("boom") || msg.contains("gRPC"), "expected 'boom' or 'gRPC' in: {msg}");
}

#[test]
fn state_error_transport_display() {
    let status = tonic::Status::unavailable("server down");
    let err = StateError::Transport(status);
    let msg = err.message();
    assert!(msg.contains("server down") || msg.contains("gRPC"), "expected 'server down' or 'gRPC' in: {msg}");
}

#[test]
fn io_and_transport_messages_carry_their_prefixes() {
    let err: ExecuteError<TestDomainError> = ExecuteError::from(std::io::Error::other("disk full"));
    assert_eq!(err.message(), "I/O error: disk full");
    let err = StateError::Transport(tonic::Status::internal("boom"));
    assert!(err.message().starts_with("gRPC transport error: "));
}

fn assert_send_sync<T: Send + Sync>() {}

#[test]
fn errors_can_cross_threads() {
    assert_send_sync::<ExecuteError<TestDomainError>>();
    assert_send_sync::<StateError>();
}
